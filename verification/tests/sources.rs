use getport::{PortList, ProvidePorts, Singleton};

#[test]
fn singleton_declares_one_candidate() {
    let mut source = Singleton(9000);
    assert_eq!(source.length(), 1);
    assert_eq!(source.get_port(), 9000);
    assert_eq!(source.length(), 1);
    assert_eq!(source.get_port(), 9000);
    assert_eq!(source.0, 9000);
}

#[test]
fn port_list_hands_out_from_the_front() {
    let mut list = PortList::new(vec![3, 1, 2, 1]);
    assert_eq!(list.length(), 4);
    assert_eq!(list.get_port(), 3);
    assert_eq!(list.length(), 3);
    assert_eq!(list.get_port(), 1);
    assert_eq!(list.get_port(), 2);
    assert_eq!(list.length(), 1);
    assert_eq!(list.get_port(), 1);
    assert_eq!(list.length(), 0);
}

#[test]
fn empty_port_list_declares_no_candidate() {
    assert_eq!(PortList::new(Vec::new()).length(), 0);
}
