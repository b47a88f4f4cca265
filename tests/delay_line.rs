use smooth_convolver::delay_line::DelayLine;

#[test]
fn delay_line_reads_back_from_head() {
    let mut d = DelayLine::new(3, 0);
    d.store(1);
    assert_eq!(d.get(0), 1);
    assert_eq!(d.get(1), 0);
    d.advance();
    d.store(2);
    d.advance();
    d.store(3);
    assert_eq!(d.slot_of(0), 2);
    assert_eq!(d.slot_of(2), 0);
    assert_eq!((d.get(0), d.get(1), d.get(2)), (3, 2, 1));
    d.advance();
    assert_eq!(d.slot_of(0), 0);
    assert_eq!(d.slot_of(1), 2);
    assert_eq!(d.get(0), 1);
    d.store(4);
    assert_eq!((d.get(0), d.get(1), d.get(2)), (4, 3, 2));
}

#[test]
fn single_slot_delay_line() {
    let mut d = DelayLine::new(1, 7);
    assert_eq!(d.get(0), 7);
    d.store(5);
    d.advance();
    assert_eq!(d.slot_of(0), 0);
    assert_eq!(d.get(0), 5);
}
