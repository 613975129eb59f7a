use vstd::prelude::*;

verus! {

/// Frames counted between interval boundaries.
///
/// The boundary itself is signalled by a timer interrupt through a shared
/// flag, which the caller reads (acquire) and clears once per frame; this
/// type holds the decisions taken on that observation.
pub struct FpsCounter {
    count: u16,
}

/// One frame: the count goes up by one (wrapping at 16 bits); on a boundary
/// it is reported and starts again from zero.
pub open spec fn tick(count: u16, interval_elapsed: bool) -> (u16, Option<u16>) {
    let c = count.wrapping_add(1);
    if interval_elapsed {
        (0, Some(c))
    } else {
        (c, None)
    }
}

/// The count and the reports after one frame per observation in `flags`.
pub open spec fn run(count: u16, flags: Seq<bool>) -> (u16, Seq<u16>)
    decreases flags.len(),
{
    if flags.len() == 0 {
        (count, seq![])
    } else {
        let before = run(count, flags.drop_last());
        let (c, report) = tick(before.0, flags.last());
        (
            c,
            match report {
                Some(n) => before.1.push(n),
                None => before.1,
            },
        )
    }
}

/// `n` frames within one interval: `n - 1` without a boundary, then the
/// frame that observes it.
pub open spec fn one_interval(n: nat) -> Seq<bool> {
    Seq::new((n - 1) as nat, |i: int| false).push(true)
}

impl View for FpsCounter {
    type V = u16;

    /// Frames counted since the last report.
    closed spec fn view(&self) -> u16 {
        self.count
    }
}

impl FpsCounter {
    /// A counter with no frames counted.
    pub fn new() -> (r: Self)
        ensures
            r@ == 0,
    {
        FpsCounter { count: 0 }
    }

    /// Frames counted since the last report.
    pub fn count(&self) -> (r: u16)
        ensures
            r == self@,
    {
        self.count
    }

    /// Count one frame. When `interval_elapsed` (the interval flag was seen
    /// raised and has been cleared), return the count to report and reset it
    /// to zero.
    pub fn update(&mut self, interval_elapsed: bool) -> (r: Option<u16>)
        ensures
            (final(self)@, r) == tick(old(self)@, interval_elapsed),
    {
        self.count = self.count.wrapping_add(1);
        if interval_elapsed {
            let n = self.count;
            self.count = 0;
            Some(n)
        } else {
            None
        }
    }
}

/// Frames without a boundary only count up.
proof fn lemma_quiet_frames(n: nat)
    requires
        n <= u16::MAX,
    ensures
        run(0, Seq::new(n, |i: int| false)) == (n as u16, Seq::<u16>::empty()),
    decreases n,
{
    if n > 0 {
        let flags = Seq::new(n, |i: int| false);
        assert(flags.drop_last() =~= Seq::new((n - 1) as nat, |i: int| false));
        lemma_quiet_frames((n - 1) as nat);
    }
}

/// Running two runs of frames one after the other.
proof fn lemma_run_append(count: u16, a: Seq<bool>, b: Seq<bool>)
    ensures
        run(count, a + b) == (run(run(count, a).0, b).0, run(count, a).1 + run(run(count, a).0, b).1),
    decreases b.len(),
{
    if b.len() == 0 {
        assert(a + b =~= a);
        assert(run(count, a).1 + seq![] =~= run(count, a).1);
    } else {
        assert((a + b).drop_last() =~= a + b.drop_last());
        assert((a + b).last() == b.last());
        lemma_run_append(count, a, b.drop_last());
        let mid = run(count, a);
        let rest = run(mid.0, b.drop_last());
        match tick(rest.0, b.last()).1 {
            Some(n) => {
                assert(mid.1 + rest.1.push(n) =~= (mid.1 + rest.1).push(n));
            },
            None => {},
        }
    }
}

/// From a reset counter, `n` frames up to and including the first observed
/// boundary report exactly `n` and leave the count at zero; `m` further
/// frames up to the next observed boundary then report exactly `m`.
pub proof fn lemma_reports_count_frames(n: nat, m: nat)
    requires
        1 <= n <= u16::MAX,
        1 <= m <= u16::MAX,
    ensures
        run(0, one_interval(n)) == (0u16, seq![n as u16]),
        run(0, one_interval(n) + one_interval(m)) == (0u16, seq![n as u16, m as u16]),
{
    assert forall|k: nat| 1 <= k <= u16::MAX implies run(0, #[trigger] one_interval(k)) == (
    0u16, seq![k as u16]) by {
        let quiet = Seq::new((k - 1) as nat, |i: int| false);
        lemma_quiet_frames((k - 1) as nat);
        assert(one_interval(k).drop_last() =~= quiet);
        assert(Seq::<u16>::empty().push(k as u16) =~= seq![k as u16]);
    }
    lemma_run_append(0, one_interval(n), one_interval(m));
    assert(seq![n as u16] + seq![m as u16] =~= seq![n as u16, m as u16]);
}

} // verus!
