//! Modifier-key snapshots: whether any modifier is held, how a snapshot is
//! described, and the decision of the wait for their release before typing.
//! A snapshot lists Command, Shift, Option and Control, left then right.

use vstd::prelude::*;
use vstd::string::StringExecFns;

verus! {

/// The label of modifier number `i` in a snapshot.
pub open spec fn modifier_label(i: int) -> Seq<char> {
    if i == 0 {
        "CmdL"@
    } else if i == 1 {
        "CmdR"@
    } else if i == 2 {
        "ShiftL"@
    } else if i == 3 {
        "ShiftR"@
    } else if i == 4 {
        "OptL"@
    } else if i == 5 {
        "OptR"@
    } else if i == 6 {
        "CtrlL"@
    } else {
        "CtrlR"@
    }
}

/// The labels of the held modifiers among the first `n`, in order.
pub open spec fn held_labels(s: Seq<bool>, n: int) -> Seq<Seq<char>>
    decreases n,
{
    if n <= 0 {
        Seq::empty()
    } else if s[n - 1] {
        held_labels(s, n - 1).push(modifier_label(n - 1))
    } else {
        held_labels(s, n - 1)
    }
}

/// The labels joined with commas.
pub open spec fn comma_joined(labels: Seq<Seq<char>>) -> Seq<char>
    decreases labels.len(),
{
    if labels.len() == 0 {
        Seq::empty()
    } else if labels.len() == 1 {
        labels[0]
    } else {
        comma_joined(labels.drop_last()) + ","@ + labels.last()
    }
}

/// The description of a snapshot: the held modifiers, or `<none>`.
pub open spec fn snapshot_text(s: Seq<bool>) -> Seq<char> {
    if held_labels(s, 8).len() == 0 {
        "<none>"@
    } else {
        comma_joined(held_labels(s, 8))
    }
}

fn label(i: usize) -> (l: &'static str)
    requires
        i < 8,
    ensures
        l@ == modifier_label(i as int),
{
    if i == 0 {
        "CmdL"
    } else if i == 1 {
        "CmdR"
    } else if i == 2 {
        "ShiftL"
    } else if i == 3 {
        "ShiftR"
    } else if i == 4 {
        "OptL"
    } else if i == 5 {
        "OptR"
    } else if i == 6 {
        "CtrlL"
    } else {
        "CtrlR"
    }
}

/// Whether any modifier in the snapshot is held.
pub fn any_down(s: &[bool; 8]) -> (b: bool)
    ensures
        b == exists|i: int| 0 <= i < 8 && s@[i],
{
    let mut i: usize = 0;
    while i < 8
        invariant
            i <= 8,
            forall|j: int| 0 <= j < i ==> !s@[j],
        decreases 8 - i,
    {
        if s[i] {
            return true;
        }
        i = i + 1;
    }
    false
}

/// The held modifiers of a snapshot, comma-separated, or `<none>`.
pub fn fmt_snapshot(s: &[bool; 8]) -> (r: String)
    ensures
        r@ == snapshot_text(s@),
{
    let mut out = String::new();
    let mut count: usize = 0;
    let mut i: usize = 0;
    while i < 8
        invariant
            i <= 8,
            s@.len() == 8,
            count == held_labels(s@, i as int).len(),
            count <= i,
            out@ == comma_joined(held_labels(s@, i as int)),
        decreases 8 - i,
    {
        if s[i] {
            let l = label(i);
            let ghost prev = held_labels(s@, i as int);
            let ghost next = prev.push(l@);
            assert(next.drop_last() =~= prev);
            if count > 0 {
                proof {
                    reveal_strlit(",");
                }
                out.append(",");
            }
            out.append(l);
            assert(held_labels(s@, i + 1) == next);
            if count == 0 {
                assert(out@ =~= comma_joined(next));
            } else {
                assert(out@ =~= comma_joined(next));
            }
            count = count + 1;
        }
        i = i + 1;
    }
    if count == 0 {
        String::from_str("<none>")
    } else {
        out
    }
}

/// The moment a wait that starts at `start_ms` and lasts `timeout_ms` ends.
pub fn wait_deadline(start_ms: u64, timeout_ms: u64) -> (d: u64)
    ensures
        d == (if start_ms as int + timeout_ms as int > u64::MAX as int {
            u64::MAX
        } else {
            (start_ms + timeout_ms) as u64
        }),
{
    start_ms.saturating_add(timeout_ms)
}

/// One round of the wait for the modifiers' release: at the deadline the
/// wait ends with whether they are released; before it, it ends as soon as
/// they are; otherwise it goes on (`None`).
pub fn modifier_wait_step(now_ms: u64, deadline_ms: u64, s: &[bool; 8]) -> (r: Option<bool>)
    ensures
        now_ms >= deadline_ms ==> r == Some(!(exists|i: int| 0 <= i < 8 && s@[i])),
        now_ms < deadline_ms && !(exists|i: int| 0 <= i < 8 && s@[i]) ==> r == Some(true),
        now_ms < deadline_ms && (exists|i: int| 0 <= i < 8 && s@[i]) ==> r is None,
{
    let down = any_down(s);
    if now_ms >= deadline_ms {
        Some(!down)
    } else if !down {
        Some(true)
    } else {
        None
    }
}

} // verus!
