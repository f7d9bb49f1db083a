use chip8::address::{addr, fontaddr, idx, var};

#[test]
fn addr_joins_three_nibbles() {
    assert_eq!(addr(0x1, 0x2, 0x3), 0x123);
    assert_eq!(addr(0, 0, 0), 0);
    assert_eq!(addr(0xF, 0xF, 0xF), 4095);
    assert_eq!(addr(0x2, 0x0, 0x0), 512);
    assert_eq!(addr(0x0, 0x1, 0x0), 16);
}

#[test]
fn fontaddr_is_five_times_the_digit() {
    assert_eq!(fontaddr(10), 50);
    assert_eq!(fontaddr(0), 0);
    assert_eq!(fontaddr(1), 5);
    assert_eq!(fontaddr(15), 75);
    assert_eq!(fontaddr(255), 1275);
}

#[test]
fn var_joins_two_nibbles() {
    assert_eq!(var(0xA, 0xB), 0xAB);
    assert_eq!(var(0, 0), 0);
    assert_eq!(var(0xF, 0xF), 255);
    assert_eq!(var(0x1, 0x0), 16);
    assert_eq!(var(0x0, 0x7), 7);
}

#[test]
fn idx_widens() {
    assert_eq!(idx(0), 0usize);
    assert_eq!(idx(7), 7usize);
    assert_eq!(idx(15), 15usize);
    assert_eq!(idx(255), 255usize);
}
