//! Which signals the runtime masks while it runs: every standard signal but
//! a fixed always-delivered set.
use vstd::prelude::*;

verus! {

pub const SIGINT: i32 = 2;
pub const SIGKILL: i32 = 9;
pub const SIGTERM: i32 = 15;
pub const SIGCHLD: i32 = 17;
pub const SIGSTOP: i32 = 19;
pub const SIGTSTP: i32 = 20;

/// One past the last standard signal number.
pub const NSIG_STANDARD: i32 = 32;

/// Signals that stay delivered: stop, kill, child, interrupt and terminate.
pub open spec fn always_delivered(sig: i32) -> bool {
    sig == SIGTSTP || sig == SIGSTOP || sig == SIGKILL || sig == SIGCHLD || sig == SIGINT || sig == SIGTERM
}

/// The signals from 1 up to `n - 1` that get ignored, in increasing order.
pub open spec fn ignored_below(n: int) -> Seq<i32>
    decreases n,
{
    if n <= 1 {
        Seq::empty()
    } else if always_delivered((n - 1) as i32) {
        ignored_below(n - 1)
    } else {
        ignored_below(n - 1).push((n - 1) as i32)
    }
}

fn is_always_delivered(sig: i32) -> (r: bool)
    ensures
        r == always_delivered(sig),
{
    sig == SIGTSTP || sig == SIGSTOP || sig == SIGKILL || sig == SIGCHLD || sig == SIGINT || sig == SIGTERM
}

/// The standard signals to ignore, in increasing order: all of 1 to 31 but the
/// always-delivered ones.
pub fn signal_init() -> (r: Vec<i32>)
    ensures
        r@ == ignored_below(NSIG_STANDARD as int),
{
    let mut out: Vec<i32> = Vec::new();
    let mut sig: i32 = 1;
    while sig < NSIG_STANDARD
        invariant
            1 <= sig <= NSIG_STANDARD,
            out@ == ignored_below(sig as int),
        decreases NSIG_STANDARD - sig,
    {
        if !is_always_delivered(sig) {
            out.push(sig);
        }
        sig = sig + 1;
    }
    out
}

/// A signal is ignored exactly when it is a standard signal outside the
/// always-delivered set.
pub proof fn lemma_ignored_signals(n: int, sig: i32)
    requires
        1 <= n <= NSIG_STANDARD,
    ensures
        ignored_below(n).contains(sig) <==> (1 <= sig < n && !always_delivered(sig)),
    decreases n,
{
    if n > 1 {
        lemma_ignored_signals(n - 1, sig);
        let prev = ignored_below(n - 1);
        let last = (n - 1) as i32;
        let cur = ignored_below(n);
        if !always_delivered(last) {
            assert(cur == prev.push(last));
            if sig == last {
                assert(cur[prev.len() as int] == sig);
            } else {
                if cur.contains(sig) {
                    let k = choose|k: int| 0 <= k < cur.len() && cur[k] == sig;
                    assert(k < prev.len());
                    assert(prev[k] == sig);
                }
                if prev.contains(sig) {
                    let k = choose|k: int| 0 <= k < prev.len() && prev[k] == sig;
                    assert(cur[k] == sig);
                }
            }
        } else {
            assert(cur == prev);
        }
    }
}

} // verus!
