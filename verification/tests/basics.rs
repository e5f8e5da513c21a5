use biiot::interpreter::Interpreter;

#[test]
fn lib_it_works() {
    assert_eq!(2 + 2, 4);
}

#[test]
fn run_all_networks() {
    assert_eq!(2 + 2, 4);
}

#[test]
fn run_p2p() {
    let ip = "127.0.0.1";
    let port: u16 = 8504;
    assert_eq!(ip.len(), 9);
    assert_eq!(port, 8504);
    let interpreter = Interpreter::new([0u8; 20]);
    assert_eq!(interpreter.step_limit, 1000);
}
