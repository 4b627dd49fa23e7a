use stm32wl_flash::ProgrammingRequest;

#[test]
fn new_keeps_destination_and_value() {
    let request = ProgrammingRequest::new(0x0800_1000, 0x0123_4567_89AB_CDEF);
    assert_eq!(request.destination, 0x0800_1000);
    assert_eq!(request.value, 0x0123_4567_89AB_CDEF);
    assert_eq!(
        request,
        ProgrammingRequest { destination: 0x0800_1000, value: 0x0123_4567_89AB_CDEF }
    );
}

#[test]
fn is_aligned_on_multiples_of_eight() {
    assert!(ProgrammingRequest::new(0, 0).is_aligned());
    assert!(ProgrammingRequest::new(8, 0).is_aligned());
    assert!(ProgrammingRequest::new(0x0800_1000, 0).is_aligned());
    assert!(ProgrammingRequest::new(0xFFFF_FFF8, 0).is_aligned());
    assert!(!ProgrammingRequest::new(1, 0).is_aligned());
    assert!(!ProgrammingRequest::new(4, 0).is_aligned());
    assert!(!ProgrammingRequest::new(7, 0).is_aligned());
    assert!(!ProgrammingRequest::new(0x0800_1004, 0).is_aligned());
    assert!(!ProgrammingRequest::new(0xFFFF_FFFF, 0).is_aligned());
}

#[test]
fn first_write_is_the_low_half_at_the_destination() {
    let request = ProgrammingRequest::new(0x0800_1000, 0x0123_4567_89AB_CDEF);
    assert_eq!(request.first_write(), (0x0800_1000, 0x89AB_CDEF));
}

#[test]
fn second_write_is_the_high_half_four_bytes_on() {
    let request = ProgrammingRequest::new(0x0800_1000, 0x0123_4567_89AB_CDEF);
    assert_eq!(request.second_write(), (0x0800_1004, 0x0123_4567));
}

#[test]
fn halves_of_a_small_value() {
    let request = ProgrammingRequest::new(0x0800_1000, 0x0000_0000_DEAD_BEEF);
    assert_eq!(request.first_write(), (0x0800_1000, 0xDEAD_BEEF));
    assert_eq!(request.second_write(), (0x0800_1004, 0));
}

#[test]
fn halves_of_the_extremes() {
    assert_eq!(ProgrammingRequest::new(0, 0).first_write(), (0, 0));
    assert_eq!(ProgrammingRequest::new(0, 0).second_write(), (4, 0));
    assert_eq!(ProgrammingRequest::new(0, u64::MAX).first_write(), (0, u32::MAX));
    assert_eq!(ProgrammingRequest::new(0, u64::MAX).second_write(), (4, u32::MAX));
    assert_eq!(ProgrammingRequest::new(0, 0x1_0000_0000).first_write(), (0, 0));
    assert_eq!(ProgrammingRequest::new(0, 0x1_0000_0000).second_write(), (4, 1));
    assert_eq!(ProgrammingRequest::new(0, 0xFFFF_FFFF).first_write(), (0, 0xFFFF_FFFF));
    assert_eq!(ProgrammingRequest::new(0, 0xFFFF_FFFF).second_write(), (4, 0));
}

#[test]
fn halves_join_to_the_value() {
    for value in [0u64, 1, 0xDEAD_BEEF, 0x0123_4567_89AB_CDEF, u64::MAX, 0x8000_0000_0000_0001] {
        let request = ProgrammingRequest::new(0x0800_0000, value);
        let (_, low) = request.first_write();
        let (_, high) = request.second_write();
        assert_eq!((u64::from(high) << 32) | u64::from(low), value);
    }
}

#[test]
fn second_write_wraps_at_the_end_of_the_address_space() {
    assert_eq!(ProgrammingRequest::new(0xFFFF_FFF8, 0).second_write().0, 0xFFFF_FFFC);
    assert_eq!(ProgrammingRequest::new(0xFFFF_FFFB, 0).second_write().0, 0xFFFF_FFFF);
    assert_eq!(ProgrammingRequest::new(0xFFFF_FFFC, 0).second_write().0, 0);
    assert_eq!(ProgrammingRequest::new(0xFFFF_FFFF, 0).second_write().0, 3);
}
