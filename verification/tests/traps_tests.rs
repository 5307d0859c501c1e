use gear_logic::traps::{
    is_leave_trap, is_wait_trap, str_starts_with, EXIT_TRAP_STR, LEAVE_TRAP_STR, WAIT_TRAP_STR,
};

#[test]
fn wait_trap_is_recognised() {
    assert!(is_wait_trap(WAIT_TRAP_STR));
    assert!(is_wait_trap("wait: more text"));
    assert!(is_wait_trap(&(WAIT_TRAP_STR.to_owned() + " and more")));
    assert!(is_leave_trap(&(LEAVE_TRAP_STR.to_owned() + "!")));
    assert!(!is_wait_trap("wai"));
    assert!(!is_wait_trap(LEAVE_TRAP_STR));
    assert!(!is_wait_trap(EXIT_TRAP_STR));
    assert!(!is_wait_trap(""));
}

#[test]
fn leave_trap_is_recognised() {
    assert!(is_leave_trap(LEAVE_TRAP_STR));
    assert!(is_leave_trap("leave now"));
    assert!(!is_leave_trap("leav"));
    assert!(!is_leave_trap(WAIT_TRAP_STR));
    assert!(!is_leave_trap(EXIT_TRAP_STR));
}

#[test]
fn starts_with_on_utf8() {
    assert!(str_starts_with("ünïcode", "ün"));
    assert!(!str_starts_with("ünïcode", "un"));
    assert!(str_starts_with("abc", ""));
    assert!(!str_starts_with("ab", "abc"));
}
