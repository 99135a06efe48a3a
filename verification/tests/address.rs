use libp2p::multiaddr::Protocol;
use libp2p::Multiaddr;
use swarm_kit::address::{create_memory_maddr, memory_maddr_for, memory_maddrs_for};

#[test]
fn memory_maddr_has_the_successor_as_port() {
    let address = memory_maddr_for(0x0102_0304_0506_0707).unwrap();
    assert_eq!(
        address.to_vec(),
        vec![0x89, 0x06, 0x01, 0x02, 0x03, 0x04, 0x05, 0x06, 0x07, 0x08]
    );
    assert_eq!(address.to_string(), "/memory/72623859790382856");
}

#[test]
fn smallest_number_gives_port_one() {
    let address = memory_maddr_for(0).unwrap();
    assert_eq!(address.to_string(), "/memory/1");
}

#[test]
fn largest_number_gives_no_address() {
    assert!(memory_maddr_for(u64::MAX).is_none());
    assert_eq!(
        memory_maddr_for(u64::MAX - 1).unwrap().to_string(),
        "/memory/18446744073709551615"
    );
}

#[test]
fn different_numbers_give_different_addresses() {
    let numbers: [u64; 5] = [0, 1, 255, 256, u64::MAX - 1];
    for (i, a) in numbers.iter().enumerate() {
        for (j, b) in numbers.iter().enumerate() {
            let same = memory_maddr_for(*a).unwrap() == memory_maddr_for(*b).unwrap();
            assert_eq!(same, i == j);
        }
    }
}

#[test]
fn random_memory_maddr_is_one_memory_component() {
    let address: Multiaddr = create_memory_maddr().unwrap();
    let components: Vec<Protocol> = address.iter().collect();
    assert_eq!(components.len(), 1);
    match components[0] {
        Protocol::Memory(port) => assert_ne!(port, 0),
        _ => panic!("not an in-memory address: {}", address),
    }
    assert_ne!(address, create_memory_maddr().unwrap());
}

#[test]
fn numbers_give_their_addresses_in_order() {
    let addresses = memory_maddrs_for(&vec![4, 0, 4]).unwrap();
    let texts: Vec<String> = addresses.iter().map(|address| address.to_string()).collect();
    assert_eq!(texts, vec!["/memory/5", "/memory/1", "/memory/5"]);
    assert!(memory_maddrs_for(&vec![]).unwrap().is_empty());
    assert!(memory_maddrs_for(&vec![1, u64::MAX, 2]).is_none());
}
