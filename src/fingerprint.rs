use vstd::prelude::*;

use crate::chat::ov;

verus! {

/// The digits of a fingerprint's numbers.
pub open spec fn hex_alphabet() -> Seq<char> {
    "0123456789abcdef"@
}

pub open spec fn pow16(w: nat) -> nat
    decreases w,
{
    if w == 0 { 1 } else { 16 * pow16((w - 1) as nat) }
}

/// The last `w` hexadecimal digits of `n`, most significant first.
pub open spec fn hex_fixed(n: nat, w: nat) -> Seq<char>
    decreases w,
{
    if w == 0 {
        Seq::empty()
    } else {
        hex_fixed(n / 16, (w - 1) as nat).push(hex_alphabet()[(n % 16) as int])
    }
}

pub proof fn lemma_hex_len(n: nat, w: nat)
    ensures
        hex_fixed(n, w).len() == w,
    decreases w,
{
    if w > 0 {
        lemma_hex_len(n / 16, (w - 1) as nat);
    }
}

/// Two numbers below `16^w` with the same `w` digits are equal.
pub proof fn lemma_hex_injective(a: nat, b: nat, w: nat)
    requires
        a < pow16(w),
        b < pow16(w),
        hex_fixed(a, w) == hex_fixed(b, w),
    ensures
        a == b,
    decreases w,
{
    if w == 0 {
    } else {
        let w1 = (w - 1) as nat;
        lemma_hex_len(a / 16, w1);
        lemma_hex_len(b / 16, w1);
        let ha = hex_fixed(a, w);
        let hb = hex_fixed(b, w);
        assert(ha.drop_last() =~= hex_fixed(a / 16, w1));
        assert(hb.drop_last() =~= hex_fixed(b / 16, w1));
        assert(ha.last() == hex_alphabet()[(a % 16) as int]);
        assert(hb.last() == hex_alphabet()[(b % 16) as int]);
        reveal_strlit("0123456789abcdef");
        assert(a % 16 == b % 16);
        let p = pow16(w1);
        assert(a / 16 < p) by (nonlinear_arith)
            requires a < 16 * p;
        assert(b / 16 < p) by (nonlinear_arith)
            requires b < 16 * p;
        lemma_hex_injective(a / 16, b / 16, w1);
        assert(a == 16 * (a / 16) + a % 16);
        assert(b == 16 * (b / 16) + b % 16);
    }
}

/// When two joined pairs are equal and their first parts have one length,
/// the parts are equal.
pub proof fn lemma_split(x1: Seq<char>, r1: Seq<char>, x2: Seq<char>, r2: Seq<char>)
    requires
        x1.len() == x2.len(),
        x1 + r1 == x2 + r2,
    ensures
        x1 == x2,
        r1 == r2,
{
    assert(x1 =~= (x1 + r1).subrange(0, x1.len() as int));
    assert(x2 =~= (x2 + r2).subrange(0, x2.len() as int));
    assert(r1 =~= (x1 + r1).subrange(x1.len() as int, (x1 + r1).len() as int));
    assert(r2 =~= (x2 + r2).subrange(x2.len() as int, (x2 + r2).len() as int));
}

fn hex_digit(d: u128) -> (r: &'static str)
    requires
        d < 16,
    ensures
        r@ == seq![hex_alphabet()[d as int]],
{
    let digits = "0123456789abcdef";
    proof {
        reveal_strlit("0123456789abcdef");
    }
    let i = d as usize;
    digits.substring_char(i, i + 1)
}

/// Appends the last `w` hexadecimal digits of `n`.
pub fn push_hex(out: &mut String, n: u128, w: usize)
    ensures
        final(out)@ == old(out)@ + hex_fixed(n as nat, w as nat),
    decreases w,
{
    if w > 0 {
        push_hex(out, n / 16, w - 1);
        let d = hex_digit(n % 16);
        out.append(d);
        assert(hex_fixed(n as nat, w as nat) =~= hex_fixed((n / 16) as nat, (w - 1) as nat).push(
            hex_alphabet()[(n % 16) as int],
        ));
    }
}

#[derive(Debug, Clone, Copy, PartialEq, Eq, Structural)]
/// `Unset` is a task whose status nobody chose.
pub enum TaskStatus {
    Unset,
    Backlog,
    ToDo,
    InProgress,
    Done,
    Canceled,
}

#[derive(Debug, Clone, Copy, PartialEq, Eq, Structural)]
/// `Unset` is a task whose priority nobody chose.
pub enum TaskPriority {
    Unset,
    Low,
    Medium,
    High,
    Urgent,
}

pub open spec fn status_code(s: TaskStatus) -> nat {
    match s {
        TaskStatus::Unset => 0,
        TaskStatus::Backlog => 1,
        TaskStatus::ToDo => 2,
        TaskStatus::InProgress => 3,
        TaskStatus::Done => 4,
        TaskStatus::Canceled => 5,
    }
}

pub open spec fn priority_code(p: TaskPriority) -> nat {
    match p {
        TaskPriority::Unset => 0,
        TaskPriority::Low => 1,
        TaskPriority::Medium => 2,
        TaskPriority::High => 3,
        TaskPriority::Urgent => 4,
    }
}

fn status_code_exec(s: TaskStatus) -> (r: u128)
    ensures
        r as nat == status_code(s),
{
    match s {
        TaskStatus::Unset => 0,
        TaskStatus::Backlog => 1,
        TaskStatus::ToDo => 2,
        TaskStatus::InProgress => 3,
        TaskStatus::Done => 4,
        TaskStatus::Canceled => 5,
    }
}

fn priority_code_exec(p: TaskPriority) -> (r: u128)
    ensures
        r as nat == priority_code(p),
{
    match p {
        TaskPriority::Unset => 0,
        TaskPriority::Low => 1,
        TaskPriority::Medium => 2,
        TaskPriority::High => 3,
        TaskPriority::Urgent => 4,
    }
}

/// A stored task. Identifiers are UUIDs as 128-bit numbers; times are
/// seconds since the Unix epoch.
pub struct Task {
    pub id: u128,
    pub created_at: i64,
    pub updated_at: i64,
    pub title: String,
    pub description: Option<String>,
    pub status: TaskStatus,
    pub priority: TaskPriority,
    pub due_date: Option<i64>,
    pub project_id: Option<u128>,
    pub lead_id: Option<u128>,
    pub owner_id: u128,
    pub count: i32,
    pub parent_id: Option<u128>,
}

pub struct TaskView {
    pub id: u128,
    pub created_at: i64,
    pub updated_at: i64,
    pub title: Seq<char>,
    pub description: Option<Seq<char>>,
    pub status: TaskStatus,
    pub priority: TaskPriority,
    pub due_date: Option<i64>,
    pub project_id: Option<u128>,
    pub lead_id: Option<u128>,
    pub owner_id: u128,
    pub count: i32,
    pub parent_id: Option<u128>,
}

impl View for Task {
    type V = TaskView;

    open spec fn view(&self) -> TaskView {
        TaskView {
            id: self.id,
            created_at: self.created_at,
            updated_at: self.updated_at,
            title: self.title@,
            description: ov(self.description),
            status: self.status,
            priority: self.priority,
            due_date: self.due_date,
            project_id: self.project_id,
            lead_id: self.lead_id,
            owner_id: self.owner_id,
            count: self.count,
            parent_id: self.parent_id,
        }
    }
}

pub open spec fn enc_u128(n: u128) -> Seq<char> {
    hex_fixed(n as nat, 32)
}

pub open spec fn enc_i64(x: i64) -> Seq<char> {
    hex_fixed((x + 0x8000_0000_0000_0000) as nat, 16)
}

pub open spec fn enc_i32(x: i32) -> Seq<char> {
    hex_fixed((x + 0x8000_0000) as nat, 8)
}

/// A string, preceded by its length in characters.
pub open spec fn enc_str(s: Seq<char>) -> Seq<char> {
    hex_fixed(s.len(), 16) + s
}

pub open spec fn enc_opt_str(o: Option<Seq<char>>) -> Seq<char> {
    match o {
        None => seq!['-'],
        Some(s) => seq!['+'] + enc_str(s),
    }
}

pub open spec fn enc_opt_u128(o: Option<u128>) -> Seq<char> {
    match o {
        None => seq!['-'],
        Some(n) => seq!['+'] + enc_u128(n),
    }
}

pub open spec fn enc_opt_i64(o: Option<i64>) -> Seq<char> {
    match o {
        None => seq!['-'],
        Some(x) => seq!['+'] + enc_i64(x),
    }
}

/// The fingerprint of a task: every field, in declaration order, each in a
/// form that says where it ends.
pub open spec fn task_fingerprint(t: TaskView) -> Seq<char> {
    enc_u128(t.id) + enc_i64(t.created_at) + enc_i64(t.updated_at) + enc_str(t.title) + enc_opt_str(
        t.description,
    ) + hex_fixed(status_code(t.status), 1) + hex_fixed(priority_code(t.priority), 1) + enc_opt_i64(
        t.due_date,
    ) + enc_opt_u128(t.project_id) + enc_opt_u128(t.lead_id) + enc_u128(t.owner_id) + enc_i32(t.count)
        + enc_opt_u128(t.parent_id)
}

/// The same text, grouped from the right, which is how it is read back.
spec fn task_fingerprint_nested(t: TaskView) -> Seq<char> {
    enc_u128(t.id) + (enc_i64(t.created_at) + (enc_i64(t.updated_at) + (enc_str(t.title) + (
    enc_opt_str(t.description) + (hex_fixed(status_code(t.status), 1) + (hex_fixed(
        priority_code(t.priority),
        1,
    ) + (enc_opt_i64(t.due_date) + (enc_opt_u128(t.project_id) + (enc_opt_u128(t.lead_id) + (
    enc_u128(t.owner_id) + (enc_i32(t.count) + enc_opt_u128(t.parent_id))))))))))))
}

pub open spec fn status_text(s: TaskStatus) -> Seq<char> {
    match s {
        TaskStatus::Unset => "None"@,
        TaskStatus::Backlog => "Backlog"@,
        TaskStatus::ToDo => "ToDo"@,
        TaskStatus::InProgress => "InProgress"@,
        TaskStatus::Done => "Done"@,
        TaskStatus::Canceled => "Canceled"@,
    }
}

pub open spec fn priority_text(p: TaskPriority) -> Seq<char> {
    match p {
        TaskPriority::Unset => "None"@,
        TaskPriority::Low => "Low"@,
        TaskPriority::Medium => "Medium"@,
        TaskPriority::High => "High"@,
        TaskPriority::Urgent => "Urgent"@,
    }
}

impl TaskStatus {
    /// The status's name as users see it.
    pub fn to_text(&self) -> (r: String)
        ensures
            r@ == status_text(*self),
    {
        match self {
            TaskStatus::Unset => String::from_str("None"),
            TaskStatus::Backlog => String::from_str("Backlog"),
            TaskStatus::ToDo => String::from_str("ToDo"),
            TaskStatus::InProgress => String::from_str("InProgress"),
            TaskStatus::Done => String::from_str("Done"),
            TaskStatus::Canceled => String::from_str("Canceled"),
        }
    }
}

impl TaskPriority {
    /// The priority's name as users see it.
    pub fn to_text(&self) -> (r: String)
        ensures
            r@ == priority_text(*self),
    {
        match self {
            TaskPriority::Unset => String::from_str("None"),
            TaskPriority::Low => String::from_str("Low"),
            TaskPriority::Medium => String::from_str("Medium"),
            TaskPriority::High => String::from_str("High"),
            TaskPriority::Urgent => String::from_str("Urgent"),
        }
    }
}

/// A task that is only partly specified; what is unset is left for the
/// model to infer. The due date is RFC 3339 text.
pub struct TaskSuggestionInput {
    pub title: Option<String>,
    pub description: Option<String>,
    pub status: Option<TaskStatus>,
    pub priority: Option<TaskPriority>,
    pub due_date: Option<String>,
}

pub struct TaskSuggestionView {
    pub title: Option<Seq<char>>,
    pub description: Option<Seq<char>>,
    pub status: Option<TaskStatus>,
    pub priority: Option<TaskPriority>,
    pub due_date: Option<Seq<char>>,
}

impl View for TaskSuggestionInput {
    type V = TaskSuggestionView;

    open spec fn view(&self) -> TaskSuggestionView {
        TaskSuggestionView {
            title: ov(self.title),
            description: ov(self.description),
            status: self.status,
            priority: self.priority,
            due_date: ov(self.due_date),
        }
    }
}

/// The marker that stands in a template for a field left to the model.
pub open spec fn placeholder() -> Seq<char> {
    "<suggest>"@
}

pub open spec fn or_placeholder(o: Option<Seq<char>>) -> Seq<char> {
    match o {
        Some(s) => s,
        None => placeholder(),
    }
}

pub open spec fn status_slot(o: Option<TaskStatus>) -> Seq<char> {
    match o {
        Some(s) => status_text(s),
        None => placeholder(),
    }
}

pub open spec fn priority_slot(o: Option<TaskPriority>) -> Seq<char> {
    match o {
        Some(p) => priority_text(p),
        None => placeholder(),
    }
}

/// The labelled template of a suggestion: one line per field, the marker in
/// place of each unset one.
pub open spec fn suggestion_fingerprint(s: TaskSuggestionView) -> Seq<char> {
    "Task Title: "@ + or_placeholder(s.title) + "\n        Task Description: "@ + or_placeholder(
        s.description,
    ) + "\n        Task Status: "@ + status_slot(s.status) + "\n        Task Priority: "@
        + priority_slot(s.priority) + "\n        Task Due Date: "@ + or_placeholder(s.due_date)
}

fn push_or_placeholder(out: &mut String, o: &Option<String>)
    ensures
        final(out)@ == old(out)@ + or_placeholder(ov(*o)),
{
    match o {
        Some(s) => out.append(s.as_str()),
        None => out.append("<suggest>"),
    }
}

/// The prompt-ready template of a suggestion, with a marker in place of
/// every field left unset.
pub fn calculate_task_suggestion_fingerprint(task_suggestion: TaskSuggestionInput) -> (r: String)
    ensures
        r@ == suggestion_fingerprint(task_suggestion@),
{
    let mut out = String::from_str("Task Title: ");
    push_or_placeholder(&mut out, &task_suggestion.title);
    out.append("\n        Task Description: ");
    push_or_placeholder(&mut out, &task_suggestion.description);
    out.append("\n        Task Status: ");
    match task_suggestion.status {
        Some(st) => {
            let t = st.to_text();
            out.append(t.as_str());
        },
        None => out.append("<suggest>"),
    }
    out.append("\n        Task Priority: ");
    match task_suggestion.priority {
        Some(p) => {
            let t = p.to_text();
            out.append(t.as_str());
        },
        None => out.append("<suggest>"),
    }
    out.append("\n        Task Due Date: ");
    push_or_placeholder(&mut out, &task_suggestion.due_date);
    out
}

/// With nothing but the title set, the template holds the title in its
/// title line and the marker in every other line.
pub proof fn lemma_unset_fields_are_marked(s: TaskSuggestionView, title: Seq<char>)
    requires
        s.title == Some(title),
        s.description is None,
        s.status is None,
        s.priority is None,
        s.due_date is None,
    ensures
        suggestion_fingerprint(s) == "Task Title: "@ + title + "\n        Task Description: "@
            + placeholder() + "\n        Task Status: "@ + placeholder() + "\n        Task Priority: "@
            + placeholder() + "\n        Task Due Date: "@ + placeholder(),
{
}

pub proof fn lemma_pow16_values()
    ensures
        pow16(1) == 16,
        pow16(8) == 0x1_0000_0000,
        pow16(16) == 0x1_0000_0000_0000_0000,
        pow16(32) == 0x1_0000_0000_0000_0000_0000_0000_0000_0000,
{
    reveal_with_fuel(pow16, 33);
}

/// Fixed-width digits followed by anything: equal texts give equal numbers
/// and equal tails.
pub proof fn lemma_hex_prefix(a: nat, b: nat, w: nat, r1: Seq<char>, r2: Seq<char>)
    requires
        a < pow16(w),
        b < pow16(w),
        hex_fixed(a, w) + r1 == hex_fixed(b, w) + r2,
    ensures
        a == b,
        r1 == r2,
{
    lemma_hex_len(a, w);
    lemma_hex_len(b, w);
    lemma_split(hex_fixed(a, w), r1, hex_fixed(b, w), r2);
    lemma_hex_injective(a, b, w);
}

pub proof fn lemma_str_prefix(s1: Seq<char>, s2: Seq<char>, r1: Seq<char>, r2: Seq<char>)
    requires
        s1.len() < pow16(16),
        s2.len() < pow16(16),
        enc_str(s1) + r1 == enc_str(s2) + r2,
    ensures
        s1 == s2,
        r1 == r2,
{
    assert(enc_str(s1) + r1 =~= hex_fixed(s1.len(), 16) + (s1 + r1));
    assert(enc_str(s2) + r2 =~= hex_fixed(s2.len(), 16) + (s2 + r2));
    lemma_hex_prefix(s1.len(), s2.len(), 16, s1 + r1, s2 + r2);
    lemma_split(s1, r1, s2, r2);
}

/// A one-character tag followed by anything: equal texts give equal tags
/// and equal tails.
pub proof fn lemma_tag(t1: char, t2: char, x1: Seq<char>, x2: Seq<char>)
    requires
        seq![t1] + x1 == seq![t2] + x2,
    ensures
        t1 == t2,
        x1 == x2,
{
    lemma_split(seq![t1], x1, seq![t2], x2);
    assert(seq![t1][0] == t1);
    assert(seq![t2][0] == t2);
}

pub proof fn lemma_opt_str_prefix(o1: Option<Seq<char>>, o2: Option<Seq<char>>, r1: Seq<char>, r2: Seq<char>)
    requires
        o1 is Some ==> o1->0.len() < pow16(16),
        o2 is Some ==> o2->0.len() < pow16(16),
        enc_opt_str(o1) + r1 == enc_opt_str(o2) + r2,
    ensures
        o1 == o2,
        r1 == r2,
{
    let (t1, x1) = match o1 {
        None => ('-', r1),
        Some(s) => ('+', enc_str(s) + r1),
    };
    let (t2, x2) = match o2 {
        None => ('-', r2),
        Some(s) => ('+', enc_str(s) + r2),
    };
    assert(enc_opt_str(o1) + r1 =~= seq![t1] + x1);
    assert(enc_opt_str(o2) + r2 =~= seq![t2] + x2);
    lemma_tag(t1, t2, x1, x2);
    if o1 is Some {
        lemma_str_prefix(o1->0, o2->0, r1, r2);
    }
}

pub proof fn lemma_u128_prefix(a: u128, b: u128, r1: Seq<char>, r2: Seq<char>)
    requires
        enc_u128(a) + r1 == enc_u128(b) + r2,
    ensures
        a == b,
        r1 == r2,
{
    lemma_pow16_values();
    lemma_hex_prefix(a as nat, b as nat, 32, r1, r2);
}

pub proof fn lemma_i64_prefix(a: i64, b: i64, r1: Seq<char>, r2: Seq<char>)
    requires
        enc_i64(a) + r1 == enc_i64(b) + r2,
    ensures
        a == b,
        r1 == r2,
{
    lemma_pow16_values();
    lemma_hex_prefix((a + 0x8000_0000_0000_0000) as nat, (b + 0x8000_0000_0000_0000) as nat, 16, r1, r2);
}

pub proof fn lemma_opt_u128_prefix(o1: Option<u128>, o2: Option<u128>, r1: Seq<char>, r2: Seq<char>)
    requires
        enc_opt_u128(o1) + r1 == enc_opt_u128(o2) + r2,
    ensures
        o1 == o2,
        r1 == r2,
{
    let (t1, x1) = match o1 {
        None => ('-', r1),
        Some(n) => ('+', enc_u128(n) + r1),
    };
    let (t2, x2) = match o2 {
        None => ('-', r2),
        Some(n) => ('+', enc_u128(n) + r2),
    };
    assert(enc_opt_u128(o1) + r1 =~= seq![t1] + x1);
    assert(enc_opt_u128(o2) + r2 =~= seq![t2] + x2);
    lemma_tag(t1, t2, x1, x2);
    if o1 is Some {
        lemma_u128_prefix(o1->0, o2->0, r1, r2);
    }
}

pub proof fn lemma_opt_i64_prefix(o1: Option<i64>, o2: Option<i64>, r1: Seq<char>, r2: Seq<char>)
    requires
        enc_opt_i64(o1) + r1 == enc_opt_i64(o2) + r2,
    ensures
        o1 == o2,
        r1 == r2,
{
    let (t1, x1) = match o1 {
        None => ('-', r1),
        Some(n) => ('+', enc_i64(n) + r1),
    };
    let (t2, x2) = match o2 {
        None => ('-', r2),
        Some(n) => ('+', enc_i64(n) + r2),
    };
    assert(enc_opt_i64(o1) + r1 =~= seq![t1] + x1);
    assert(enc_opt_i64(o2) + r2 =~= seq![t2] + x2);
    lemma_tag(t1, t2, x1, x2);
    if o1 is Some {
        lemma_i64_prefix(o1->0, o2->0, r1, r2);
    }
}

proof fn lemma_fingerprint_grouping(t: TaskView)
    ensures
        task_fingerprint(t) == task_fingerprint_nested(t),
{
    let a1 = enc_u128(t.id);
    let a2 = enc_i64(t.created_at);
    let a3 = enc_i64(t.updated_at);
    let a4 = enc_str(t.title);
    let a5 = enc_opt_str(t.description);
    let a6 = hex_fixed(status_code(t.status), 1);
    let a7 = hex_fixed(priority_code(t.priority), 1);
    let a8 = enc_opt_i64(t.due_date);
    let a9 = enc_opt_u128(t.project_id);
    let a10 = enc_opt_u128(t.lead_id);
    let a11 = enc_u128(t.owner_id);
    let a12 = enc_i32(t.count);
    let a13 = enc_opt_u128(t.parent_id);
    let r12 = a12 + a13;
    let r11 = a11 + r12;
    let r10 = a10 + r11;
    let r9 = a9 + r10;
    let r8 = a8 + r9;
    let r7 = a7 + r8;
    let r6 = a6 + r7;
    let r5 = a5 + r6;
    let r4 = a4 + r5;
    let r3 = a3 + r4;
    let r2 = a2 + r3;
    lemma_assoc(a1 + a2 + a3 + a4 + a5 + a6 + a7 + a8 + a9 + a10 + a11, a12, a13);
    lemma_assoc(a1 + a2 + a3 + a4 + a5 + a6 + a7 + a8 + a9 + a10, a11, r12);
    lemma_assoc(a1 + a2 + a3 + a4 + a5 + a6 + a7 + a8 + a9, a10, r11);
    lemma_assoc(a1 + a2 + a3 + a4 + a5 + a6 + a7 + a8, a9, r10);
    lemma_assoc(a1 + a2 + a3 + a4 + a5 + a6 + a7, a8, r9);
    lemma_assoc(a1 + a2 + a3 + a4 + a5 + a6, a7, r8);
    lemma_assoc(a1 + a2 + a3 + a4 + a5, a6, r7);
    lemma_assoc(a1 + a2 + a3 + a4, a5, r6);
    lemma_assoc(a1 + a2 + a3, a4, r5);
    lemma_assoc(a1 + a2, a3, r4);
    lemma_assoc(a1, a2, r3);
}

proof fn lemma_assoc(a: Seq<char>, b: Seq<char>, c: Seq<char>)
    ensures
        a + b + c == a + (b + c),
{
    assert(a + b + c =~= a + (b + c));
}

/// Text lengths that a fingerprint can record.
pub open spec fn task_fits(t: TaskView) -> bool {
    &&& t.title.len() < pow16(16)
    &&& t.description is Some ==> t.description->0.len() < pow16(16)
}

/// Fingerprints tell tasks apart: two tasks have the same fingerprint
/// exactly when all their fields are equal.
pub proof fn lemma_task_fingerprint_injective(t1: TaskView, t2: TaskView)
    requires
        task_fits(t1),
        task_fits(t2),
    ensures
        task_fingerprint(t1) == task_fingerprint(t2) <==> t1 == t2,
{
    lemma_fingerprint_grouping(t1);
    lemma_fingerprint_grouping(t2);
    if task_fingerprint(t1) == task_fingerprint(t2) {
        let e = Seq::<char>::empty();
        lemma_pow16_values();
        let r1_12 = enc_opt_u128(t1.parent_id);
        let r2_12 = enc_opt_u128(t2.parent_id);
        let r1_11 = enc_i32(t1.count) + r1_12;
        let r2_11 = enc_i32(t2.count) + r2_12;
        let r1_10 = enc_u128(t1.owner_id) + r1_11;
        let r2_10 = enc_u128(t2.owner_id) + r2_11;
        let r1_9 = enc_opt_u128(t1.lead_id) + r1_10;
        let r2_9 = enc_opt_u128(t2.lead_id) + r2_10;
        let r1_8 = enc_opt_u128(t1.project_id) + r1_9;
        let r2_8 = enc_opt_u128(t2.project_id) + r2_9;
        let r1_7 = enc_opt_i64(t1.due_date) + r1_8;
        let r2_7 = enc_opt_i64(t2.due_date) + r2_8;
        let r1_6 = hex_fixed(priority_code(t1.priority), 1) + r1_7;
        let r2_6 = hex_fixed(priority_code(t2.priority), 1) + r2_7;
        let r1_5 = hex_fixed(status_code(t1.status), 1) + r1_6;
        let r2_5 = hex_fixed(status_code(t2.status), 1) + r2_6;
        let r1_4 = enc_opt_str(t1.description) + r1_5;
        let r2_4 = enc_opt_str(t2.description) + r2_5;
        let r1_3 = enc_str(t1.title) + r1_4;
        let r2_3 = enc_str(t2.title) + r2_4;
        let r1_2 = enc_i64(t1.updated_at) + r1_3;
        let r2_2 = enc_i64(t2.updated_at) + r2_3;
        let r1_1 = enc_i64(t1.created_at) + r1_2;
        let r2_1 = enc_i64(t2.created_at) + r2_2;
        lemma_u128_prefix(t1.id, t2.id, r1_1, r2_1);
        lemma_i64_prefix(t1.created_at, t2.created_at, r1_2, r2_2);
        lemma_i64_prefix(t1.updated_at, t2.updated_at, r1_3, r2_3);
        lemma_str_prefix(t1.title, t2.title, r1_4, r2_4);
        lemma_opt_str_prefix(t1.description, t2.description, r1_5, r2_5);
        lemma_hex_prefix(status_code(t1.status), status_code(t2.status), 1, r1_6, r2_6);
        lemma_hex_prefix(priority_code(t1.priority), priority_code(t2.priority), 1, r1_7, r2_7);
        lemma_opt_i64_prefix(t1.due_date, t2.due_date, r1_8, r2_8);
        lemma_opt_u128_prefix(t1.project_id, t2.project_id, r1_9, r2_9);
        lemma_opt_u128_prefix(t1.lead_id, t2.lead_id, r1_10, r2_10);
        lemma_u128_prefix(t1.owner_id, t2.owner_id, r1_11, r2_11);
        lemma_hex_prefix((t1.count + 0x8000_0000) as nat, (t2.count + 0x8000_0000) as nat, 8, r1_12, r2_12);
        assert(r1_12 + e =~= r1_12);
        assert(r2_12 + e =~= r2_12);
        lemma_opt_u128_prefix(t1.parent_id, t2.parent_id, e, e);
    }
}

fn push_tag(out: &mut String, present: bool)
    ensures
        final(out)@ == old(out)@ + (if present { seq!['+'] } else { seq!['-'] }),
{
    if present {
        proof {
            reveal_strlit("+");
        }
        out.append("+");
    } else {
        proof {
            reveal_strlit("-");
        }
        out.append("-");
    }
}

fn push_i64(out: &mut String, x: i64)
    ensures
        final(out)@ == old(out)@ + enc_i64(x),
{
    push_hex(out, (x as i128 + 0x8000_0000_0000_0000i128) as u128, 16);
}

fn push_str_enc(out: &mut String, s: &String)
    ensures
        final(out)@ == old(out)@ + enc_str(s@),
        s@.len() < pow16(16),
{
    let l = s.as_str().unicode_len();
    proof {
        lemma_pow16_values();
    }
    push_hex(out, l as u128, 16);
    out.append(s.as_str());
    assert(final(out)@ =~= old(out)@ + enc_str(s@));
}

fn push_opt_str(out: &mut String, o: &Option<String>)
    ensures
        final(out)@ == old(out)@ + enc_opt_str(ov(*o)),
        o is Some ==> o->0@.len() < pow16(16),
{
    match o {
        None => push_tag(out, false),
        Some(s) => {
            push_tag(out, true);
            push_str_enc(out, s);
            assert(final(out)@ =~= old(out)@ + enc_opt_str(ov(*o)));
        },
    }
}

fn push_opt_u128(out: &mut String, o: Option<u128>)
    ensures
        final(out)@ == old(out)@ + enc_opt_u128(o),
{
    match o {
        None => push_tag(out, false),
        Some(n) => {
            push_tag(out, true);
            push_hex(out, n, 32);
            assert(final(out)@ =~= old(out)@ + enc_opt_u128(o));
        },
    }
}

fn push_opt_i64(out: &mut String, o: Option<i64>)
    ensures
        final(out)@ == old(out)@ + enc_opt_i64(o),
{
    match o {
        None => push_tag(out, false),
        Some(x) => {
            push_tag(out, true);
            push_i64(out, x);
            assert(final(out)@ =~= old(out)@ + enc_opt_i64(o));
        },
    }
}

/// The fingerprint of a task; it records every field, so that two tasks
/// share one exactly when they are equal.
pub fn calculate_task_fingerprint(task: Task) -> (r: String)
    ensures
        r@ == task_fingerprint(task@),
        task_fits(task@),
{
    fingerprint_of(&task)
}

fn fingerprint_of(task: &Task) -> (r: String)
    ensures
        r@ == task_fingerprint(task@),
        task_fits(task@),
{
    let mut out = String::new();
    push_hex(&mut out, task.id, 32);
    assert(out@ =~= enc_u128(task.id));
    push_i64(&mut out, task.created_at);
    push_i64(&mut out, task.updated_at);
    push_str_enc(&mut out, &task.title);
    push_opt_str(&mut out, &task.description);
    push_hex(&mut out, status_code_exec(task.status), 1);
    push_hex(&mut out, priority_code_exec(task.priority), 1);
    push_opt_i64(&mut out, task.due_date);
    push_opt_u128(&mut out, task.project_id);
    push_opt_u128(&mut out, task.lead_id);
    push_hex(&mut out, task.owner_id, 32);
    push_hex(&mut out, (task.count as i64 + 0x8000_0000i64) as u128, 8);
    push_opt_u128(&mut out, task.parent_id);
    out
}

/// Whether a task lies in the requested project scope; no scope takes all.
pub open spec fn in_scope(t: TaskView, project_id: Option<u128>) -> bool {
    project_id is None || t.project_id == project_id
}

/// The tasks in scope, in their order.
pub open spec fn scoped(tasks: Seq<TaskView>, project_id: Option<u128>) -> Seq<TaskView>
    decreases tasks.len(),
{
    if tasks.len() == 0 {
        Seq::empty()
    } else {
        let rest = scoped(tasks.drop_last(), project_id);
        if in_scope(tasks.last(), project_id) {
            rest.push(tasks.last())
        } else {
            rest
        }
    }
}

pub open spec fn tasks_view(tasks: Seq<Task>) -> Seq<TaskView> {
    tasks.map_values(|t: Task| t@)
}

/// The tasks in scope among the first `i` are the first ones in scope
/// among all.
proof fn lemma_scoped_prefix(tasks: Seq<TaskView>, project_id: Option<u128>, i: int)
    requires
        0 <= i <= tasks.len(),
    ensures
        scoped(tasks.take(i), project_id).len() <= scoped(tasks, project_id).len(),
        scoped(tasks.take(i), project_id) =~= scoped(tasks, project_id).take(
            scoped(tasks.take(i), project_id).len() as int,
        ),
    decreases tasks.len() - i,
{
    if i < tasks.len() {
        lemma_scoped_prefix(tasks, project_id, i + 1);
        assert(tasks.take(i + 1).drop_last() =~= tasks.take(i));
    } else {
        assert(tasks.take(i) =~= tasks);
    }
}

/// The fingerprints of the first `number_of_tasks` tasks of the given
/// project (of any project when none is given), in order: the basis against
/// which new suggestions are compared.
pub fn acquire_tasks_fingerprints(tasks: &Vec<Task>, number_of_tasks: u32, project_id: Option<u128>) -> (r: Vec<String>)
    ensures
        ({
            let s = scoped(tasks_view(tasks@), project_id);
            &&& r@.len() == if s.len() < number_of_tasks { s.len() } else { number_of_tasks as nat }
            &&& forall|i: int| 0 <= i < r@.len() ==> (#[trigger] r@[i])@ == task_fingerprint(s[i])
        }),
{
    let ghost tv = tasks_view(tasks@);
    let mut out: Vec<String> = Vec::new();
    let mut i: usize = 0;
    assert(tv.take(0) =~= Seq::<TaskView>::empty());
    while i < tasks.len() && out.len() < number_of_tasks as usize
        invariant
            tv == tasks_view(tasks@),
            i <= tasks@.len(),
            out@.len() <= number_of_tasks,
            out@.len() == scoped(tv.take(i as int), project_id).len(),
            forall|j: int| 0 <= j < out@.len() ==> (#[trigger] out@[j])@ == task_fingerprint(
                scoped(tv.take(i as int), project_id)[j],
            ),
        decreases tasks@.len() - i,
    {
        let ghost before = scoped(tv.take(i as int), project_id);
        assert(tv.take(i + 1).drop_last() =~= tv.take(i as int));
        assert(tv.take(i + 1).last() == tasks@[i as int]@);
        let in_project = match project_id {
            None => true,
            Some(p) => tasks[i].project_id == Some(p),
        };
        if in_project {
            out.push(fingerprint_of(&tasks[i]));
            assert(scoped(tv.take(i + 1), project_id) == before.push(tasks@[i as int]@));
        }
        i = i + 1;
    }
    proof {
        lemma_scoped_prefix(tv, project_id, i as int);
        if out@.len() < number_of_tasks {
            assert(tv.take(i as int) =~= tv);
        }
    }
    out
}

} // verus!
