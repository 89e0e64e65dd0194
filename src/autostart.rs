//! The login auto-start records: the run entry that names the executable,
//! and the approval entry whose leading byte says whether the OS may run it.
//! The registry reads and writes are the caller's; this module fixes what is
//! written and how a stored approval value is read.

use vstd::prelude::*;

verus! {

/// The value name under which both records are stored.
pub const APP_NAME: &'static str = "kava";

/// Per-user key that lists the programs run at login.
pub const RUN_KEY: &'static str = "SOFTWARE\\Microsoft\\Windows\\CurrentVersion\\Run";

/// Per-user key where the OS keeps the approval of each run entry.
pub const APPROVAL_KEY: &'static str = "SOFTWARE\\Microsoft\\Windows\\CurrentVersion\\Explorer\\StartupApproved\\Run";

/// Leading byte of an approval record that allows the entry to run.
pub const APPROVED: u8 = 0x02;

/// Leading byte of an approval record that stops the entry from running.
pub const DISAPPROVED: u8 = 0x03;

/// Length of an approval record.
pub const APPROVAL_LEN: usize = 12;

pub open spec fn app_name() -> Seq<char> {
    "kava"@
}

/// The approval record: the leading byte, then eleven zero bytes.
pub open spec fn approval_record(enabled: bool) -> Seq<u8> {
    Seq::new(12, |i: int| if i == 0 { if enabled { APPROVED } else { DISAPPROVED } } else { 0u8 })
}

/// Whether a stored approval value allows the entry to run.
pub open spec fn record_enabled(value: Seq<u8>) -> bool {
    value.len() > 0 && value[0] == APPROVED
}

/// A string-valued store after the run entry for `exe_path` was written.
pub open spec fn registered(store: Map<Seq<char>, Seq<char>>, exe_path: Seq<char>) -> Map<
    Seq<char>,
    Seq<char>,
> {
    store.insert(app_name(), exe_path)
}

/// A byte-valued store after the approval record was written.
pub open spec fn approved(store: Map<Seq<char>, Seq<u8>>, enabled: bool) -> Map<Seq<char>, Seq<u8>> {
    store.insert(app_name(), approval_record(enabled))
}

/// The run entry: its value name and the executable it starts.
pub struct RunEntry {
    pub name: String,
    pub command: String,
}

/// The run entry that starts the executable at `exe_path` at login.
pub fn register(exe_path: &str) -> (r: RunEntry)
    ensures
        r.name@ == app_name(),
        r.command@ == exe_path@,
{
    proof {
        reveal_strlit("kava");
    }
    RunEntry { name: APP_NAME.to_owned(), command: exe_path.to_owned() }
}

fn approval_value(enabled: bool) -> (r: Vec<u8>)
    ensures
        r@ == approval_record(enabled),
{
    let mut v: Vec<u8> = Vec::new();
    v.push(if enabled { APPROVED } else { DISAPPROVED });
    let mut i: usize = 1;
    while i < APPROVAL_LEN
        invariant
            1 <= i <= APPROVAL_LEN,
            v@.len() == i,
            forall|j: int| 0 <= j < i ==> #[trigger] v@[j] == approval_record(enabled)[j],
        decreases APPROVAL_LEN - i,
    {
        v.push(0u8);
        i = i + 1;
    }
    assert(v@ =~= approval_record(enabled));
    v
}

/// The approval record that allows the run entry.
pub fn enable() -> (r: Vec<u8>)
    ensures
        r@ == approval_record(true),
{
    approval_value(true)
}

/// The approval record that stops the run entry.
pub fn disable() -> (r: Vec<u8>)
    ensures
        r@ == approval_record(false),
{
    approval_value(false)
}

/// Whether a stored approval value allows the run entry: true exactly when
/// its leading byte is the approved marker.
pub fn is_enabled(value: &[u8]) -> (r: bool)
    ensures
        r == record_enabled(value@),
{
    value.len() > 0 && value[0] == APPROVED
}

/// A store that was given the enabling record reads as enabled, and one
/// that was given the disabling record reads as disabled.
pub proof fn lemma_enable_disable(store: Map<Seq<char>, Seq<u8>>)
    ensures
        record_enabled(approved(store, true)[app_name()]),
        !record_enabled(approved(store, false)[app_name()]),
{
}

/// Writing the run entry twice leaves the same store as writing it once.
pub proof fn lemma_register_idempotent(store: Map<Seq<char>, Seq<char>>, exe_path: Seq<char>)
    ensures
        registered(registered(store, exe_path), exe_path) == registered(store, exe_path),
{
    assert(registered(registered(store, exe_path), exe_path) =~= registered(store, exe_path));
}

} // verus!
