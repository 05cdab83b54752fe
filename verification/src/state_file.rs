//! Writing the state file without ever leaving a half-written one: the text
//! goes to a new file beside it, which then takes its place.
use vstd::prelude::*;
use crate::text::{all_digits, decimal, decimal_spec, digit_spec, lemma_decimal_reads_back};

verus! {

/// How often another name is tried for the new file.
pub const TEMP_ATTEMPTS: u32 = 100;

/// The name of the new file, for a process and a count within it.
pub open spec fn temp_name_spec(file: Seq<char>, pid: nat, id: nat) -> Seq<char> {
    seq!['.'] + file + ".tensaku-tmp-"@ + decimal_spec(pid) + seq!['-'] + decimal_spec(id)
}

/// The name of the new file. A state file whose name is not known counts as
/// one with the usual name.
pub fn temp_name(file: Option<&str>, pid: u32, id: u64) -> (r: String)
    ensures
        r@ == temp_name_spec(
            match file {
                Some(f) => f@,
                None => "state.toml"@,
            },
            pid as nat,
            id as nat,
        ),
{
    let name: &str = match file {
        Some(f) => f,
        None => "state.toml",
    };
    let mut s: String = String::new();
    s.push('.');
    assert(s@ =~= seq!['.']);
    let mut s: String = s.concat(name).concat(".tensaku-tmp-").concat(decimal(pid as u64).as_str());
    let ghost before = s@;
    s.push('-');
    assert(s@ =~= before + seq!['-']);
    s.concat(decimal(id).as_str())
}

proof fn lemma_digits(n: nat)
    ensures
        decimal_spec(n).len() > 0,
        all_digits(decimal_spec(n)),
    decreases n,
{
    let s = decimal_spec(n);
    if n >= 10 {
        lemma_digits(n / 10);
        assert forall|i: int| 0 <= i < s.len() implies digit_spec(#[trigger] s[i]) by {
            if i < s.len() - 1 {
                assert(s[i] == decimal_spec(n / 10)[i]);
            }
        }
    }
}

/// Digits up to the first hyphen can be told apart from what follows.
proof fn lemma_split(a: Seq<char>, x: Seq<char>, b: Seq<char>, y: Seq<char>)
    requires
        all_digits(a),
        all_digits(b),
        a + seq!['-'] + x == b + seq!['-'] + y,
    ensures
        a == b,
        x == y,
{
    let s = a + seq!['-'] + x;
    assert(s[a.len() as int] == '-');
    assert(s[b.len() as int] == '-') by {
        assert((b + seq!['-'] + y)[b.len() as int] == '-');
    }
    if a.len() < b.len() {
        assert((b + seq!['-'] + y)[a.len() as int] == b[a.len() as int]);
        assert(digit_spec(b[a.len() as int]));
    } else if b.len() < a.len() {
        assert(s[b.len() as int] == a[b.len() as int]);
        assert(digit_spec(a[b.len() as int]));
    }
    assert forall|i: int| 0 <= i < a.len() implies a[i] == b[i] by {
        assert(s[i] == a[i]);
        assert((b + seq!['-'] + y)[i] == b[i]);
    }
    assert(a =~= b);
    assert(s.skip(a.len() as int + 1) =~= x);
    assert((b + seq!['-'] + y).skip(b.len() as int + 1) =~= y);
}

/// Neither two processes nor two writes of one process use the same new
/// file.
pub proof fn lemma_temp_names_differ(file: Seq<char>, pid: u32, id: u64, pid2: u32, id2: u64)
    requires
        temp_name_spec(file, pid as nat, id as nat) == temp_name_spec(
            file,
            pid2 as nat,
            id2 as nat,
        ),
    ensures
        pid == pid2,
        id == id2,
{
    let head = seq!['.'] + file + ".tensaku-tmp-"@;
    let (a, x) = (decimal_spec(pid as nat), decimal_spec(id as nat));
    let (b, y) = (decimal_spec(pid2 as nat), decimal_spec(id2 as nat));
    let s = temp_name_spec(file, pid as nat, id as nat);
    assert(s.skip(head.len() as int) =~= a + seq!['-'] + x);
    assert(s.skip(head.len() as int) =~= b + seq!['-'] + y);
    lemma_digits(pid as nat);
    lemma_digits(pid2 as nat);
    lemma_split(a, x, b, y);
    lemma_decimal_reads_back(pid as u64);
    lemma_decimal_reads_back(pid2 as u64);
    lemma_decimal_reads_back(id);
    lemma_decimal_reads_back(id2);
}

/// What came of creating the new file.
#[derive(Clone, Copy, Debug, PartialEq, Eq, Structural)]
pub enum Created {
    Yes,
    /// There is a file of that name.
    AlreadyExists,
    /// It failed otherwise.
    Failed,
}

/// What to do next.
#[derive(Clone, Copy, Debug, PartialEq, Eq, Structural)]
pub enum WriteStep {
    /// Write the text, and put the file in place.
    Write,
    /// Try the next name.
    Retry,
    /// No name was free.
    GiveUp,
    /// Report the failure.
    Fail,
}

/// What to do after attempt number `attempt`, counted from zero.
pub fn after_create(attempt: u32, created: Created) -> (r: WriteStep)
    ensures
        r == match created {
            Created::Yes => WriteStep::Write,
            Created::Failed => WriteStep::Fail,
            Created::AlreadyExists => if attempt + 1 < TEMP_ATTEMPTS {
                WriteStep::Retry
            } else {
                WriteStep::GiveUp
            },
        },
{
    match created {
        Created::Yes => WriteStep::Write,
        Created::Failed => WriteStep::Fail,
        Created::AlreadyExists => {
            if attempt < TEMP_ATTEMPTS - 1 {
                WriteStep::Retry
            } else {
                WriteStep::GiveUp
            }
        },
    }
}

} // verus!
