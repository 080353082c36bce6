use sbmp::server::Admission;
use sbmp::Connection;

#[test]
fn the_mode_decides_what_becomes_of_a_newcomer() {
    assert_eq!(Connection::Accept.answer(), Admission::HandOff);
    assert_eq!(Connection::Drop.answer(), Admission::Refuse);
    assert_eq!(Connection::End.answer(), Admission::Stop);
}

#[test]
fn listening_ends_when_nobody_takes_a_client() {
    for mode in [Connection::Accept, Connection::Drop, Connection::End] {
        assert_eq!(mode.after_handoff(true, false), Connection::End);
        assert_eq!(mode.after_handoff(true, true), mode);
        assert_eq!(mode.after_handoff(false, true), mode);
        assert_eq!(mode.after_handoff(false, false), mode);
    }
}

#[test]
fn a_newcomer_that_is_turned_away_is_told_why() {
    assert_eq!(Connection::drop_notice(), "The server is full");
}
