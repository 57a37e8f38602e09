use tpt_zero_formal::loop_inv::{assert_loop_entry, assert_loop_invariant, LoopInvariant};

struct SumLoop {
    i: u64,
    sum: u64,
}

impl LoopInvariant for SumLoop {
    fn establish(&self) -> bool {
        self.sum == self.i * (self.i + 1) / 2
    }
    fn maintain(&self) -> bool {
        self.sum == self.i * (self.i + 1) / 2
    }
}

#[test]
fn trait_entry_and_maintain_checked_each_iteration() {
    let mut s = SumLoop { i: 0, sum: 0 };
    assert_loop_entry(&s);
    while s.i < 100 {
        assert_loop_invariant(&s);
        s.sum += s.i + 1;
        s.i += 1;
    }
    assert_eq!(s.sum, 100 * 101 / 2);
}

#[test]
fn fn_helpers_return_reference_unchanged() {
    let s = SumLoop { i: 0, sum: 0 };
    let entry = assert_loop_entry(&s);
    let maintained = assert_loop_invariant(entry);
    assert_eq!(maintained.sum, 0);
}

#[test]
fn establish_detects_broken_entry() {
    let s = SumLoop { i: 5, sum: 0 };
    assert!(!s.establish());
}
