use printer::null_term::NullTerm;

#[test]
fn null_term_takes_every_byte() {
    let mut term = NullTerm::default();
    assert_eq!(term.write(b"hello"), 5);
    assert_eq!(term.write(b""), 0);
}

#[test]
fn null_term_reports_a_fixed_size() {
    let term = NullTerm;
    assert_eq!(term.width(), 128);
    assert_eq!(term.height(), 128);
    assert_eq!(format!("{:?}", term), "NullTerm");
}
