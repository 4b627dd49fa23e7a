use stm32wl_flash::status::{
    CR_PG, SR_BSY, SR_CLEAR_ALL, SR_EOP, SR_FASTERR, SR_MISSERR, SR_OPERR, SR_PESD, SR_PGAERR,
    SR_PGSERR, SR_PROGERR, SR_RDERR, SR_SIZERR, SR_WRPERR,
};
use stm32wl_flash::{Error, Flash, StatusSnapshot};

fn no_flags() -> StatusSnapshot {
    StatusSnapshot {
        busy: false,
        suspend: false,
        eop: false,
        miss: false,
        seq: false,
        size: false,
        align: false,
        wp: false,
        prog: false,
        op: false,
    }
}

#[test]
fn register_layout() {
    assert_eq!(SR_EOP, 1 << 0);
    assert_eq!(SR_OPERR, 1 << 1);
    assert_eq!(SR_PROGERR, 1 << 3);
    assert_eq!(SR_WRPERR, 1 << 4);
    assert_eq!(SR_PGAERR, 1 << 5);
    assert_eq!(SR_SIZERR, 1 << 6);
    assert_eq!(SR_PGSERR, 1 << 7);
    assert_eq!(SR_MISSERR, 1 << 8);
    assert_eq!(SR_FASTERR, 1 << 9);
    assert_eq!(SR_RDERR, 1 << 14);
    assert_eq!(SR_BSY, 1 << 16);
    assert_eq!(SR_PESD, 1 << 19);
    assert_eq!(CR_PG, 1 << 0);
}

#[test]
fn clear_pattern_names_every_sticky_flag() {
    assert_eq!(SR_CLEAR_ALL, 0x43FB);
    assert_eq!(
        SR_CLEAR_ALL,
        SR_RDERR
            | SR_FASTERR
            | SR_MISSERR
            | SR_PGSERR
            | SR_SIZERR
            | SR_PGAERR
            | SR_WRPERR
            | SR_PROGERR
            | SR_OPERR
            | SR_EOP
    );
    assert_eq!(SR_CLEAR_ALL & SR_BSY, 0);
    assert_eq!(SR_CLEAR_ALL & SR_PESD, 0);
    assert_eq!(Flash::<()>::clear_all_err(), 0x43FB);
}

#[test]
fn from_bits_of_zero_is_no_flag() {
    assert_eq!(StatusSnapshot::from_bits(0), no_flags());
}

#[test]
fn from_bits_reads_each_flag() {
    assert_eq!(StatusSnapshot::from_bits(0x0001_0000), StatusSnapshot { busy: true, ..no_flags() });
    assert_eq!(
        StatusSnapshot::from_bits(0x0008_0000),
        StatusSnapshot { suspend: true, ..no_flags() }
    );
    assert_eq!(StatusSnapshot::from_bits(0x0000_0001), StatusSnapshot { eop: true, ..no_flags() });
    assert_eq!(StatusSnapshot::from_bits(0x0000_0100), StatusSnapshot { miss: true, ..no_flags() });
    assert_eq!(StatusSnapshot::from_bits(0x0000_0080), StatusSnapshot { seq: true, ..no_flags() });
    assert_eq!(StatusSnapshot::from_bits(0x0000_0040), StatusSnapshot { size: true, ..no_flags() });
    assert_eq!(StatusSnapshot::from_bits(0x0000_0020), StatusSnapshot { align: true, ..no_flags() });
    assert_eq!(StatusSnapshot::from_bits(0x0000_0010), StatusSnapshot { wp: true, ..no_flags() });
    assert_eq!(StatusSnapshot::from_bits(0x0000_0008), StatusSnapshot { prog: true, ..no_flags() });
    assert_eq!(StatusSnapshot::from_bits(0x0000_0002), StatusSnapshot { op: true, ..no_flags() });
}

#[test]
fn from_bits_ignores_the_other_bits() {
    // Bit 2 is reserved. FASTERR, OPTNV, RDERR, OPTVERR and CFGBSY are not
    // part of a snapshot.
    let others: u32 = (1 << 2) | (1 << 9) | (1 << 13) | (1 << 14) | (1 << 15) | (1 << 18);
    assert_eq!(StatusSnapshot::from_bits(others), no_flags());
    assert_eq!(StatusSnapshot::from_bits(0xFFF0_0000 & !SR_PESD), no_flags());
}

#[test]
fn from_bits_of_all_ones_is_every_flag() {
    let all = StatusSnapshot::from_bits(u32::MAX);
    assert_eq!(
        all,
        StatusSnapshot {
            busy: true,
            suspend: true,
            eop: true,
            miss: true,
            seq: true,
            size: true,
            align: true,
            wp: true,
            prog: true,
            op: true,
        }
    );
}

#[test]
fn bsy_reads_bit_sixteen() {
    assert!(Flash::<()>::bsy(0x0001_0000));
    assert!(Flash::<()>::bsy(0xFFFF_FFFF));
    assert!(!Flash::<()>::bsy(0));
    assert!(!Flash::<()>::bsy(0xFFFE_FFFF));
    assert!(!Flash::<()>::bsy(0x0008_0000));
}

#[test]
fn pesd_reads_bit_nineteen() {
    assert!(Flash::<()>::pesd(0x0008_0000));
    assert!(Flash::<()>::pesd(0xFFFF_FFFF));
    assert!(!Flash::<()>::pesd(0));
    assert!(!Flash::<()>::pesd(0xFFF7_FFFF));
    assert!(!Flash::<()>::pesd(0x0001_0000));
}

#[test]
fn classify_no_flag_is_ok() {
    assert_eq!(no_flags().classify(), Ok(()));
    assert_eq!(StatusSnapshot::from_bits(SR_EOP).classify(), Ok(()));
    // Busy and suspend are no error flags.
    assert_eq!(StatusSnapshot::from_bits(SR_BSY | SR_PESD).classify(), Ok(()));
}

#[test]
fn classify_each_flag_alone() {
    assert_eq!(StatusSnapshot::from_bits(SR_MISSERR).classify(), Err(Error::Miss));
    assert_eq!(StatusSnapshot::from_bits(SR_PGSERR).classify(), Err(Error::Sequence));
    assert_eq!(StatusSnapshot::from_bits(SR_SIZERR).classify(), Err(Error::Size));
    assert_eq!(StatusSnapshot::from_bits(SR_PGAERR).classify(), Err(Error::Align));
    assert_eq!(StatusSnapshot::from_bits(SR_WRPERR).classify(), Err(Error::Wp));
    assert_eq!(StatusSnapshot::from_bits(SR_PROGERR).classify(), Err(Error::Prog));
    assert_eq!(StatusSnapshot::from_bits(SR_OPERR).classify(), Err(Error::Op));
}

#[test]
fn classify_one_cause_outranks_sequence_and_operation() {
    assert_eq!(StatusSnapshot::from_bits(SR_PGAERR | SR_PGSERR).classify(), Err(Error::Align));
    assert_eq!(StatusSnapshot::from_bits(SR_WRPERR | SR_OPERR).classify(), Err(Error::Wp));
    assert_eq!(
        StatusSnapshot::from_bits(SR_PROGERR | SR_PGSERR | SR_OPERR).classify(),
        Err(Error::Prog)
    );
    assert_eq!(
        StatusSnapshot::from_bits(SR_MISSERR | SR_PGSERR | SR_OPERR | SR_EOP).classify(),
        Err(Error::Miss)
    );
    assert_eq!(StatusSnapshot::from_bits(SR_SIZERR | SR_OPERR).classify(), Err(Error::Size));
}

#[test]
fn classify_sequence_outranks_operation() {
    assert_eq!(StatusSnapshot::from_bits(SR_PGSERR | SR_OPERR).classify(), Err(Error::Sequence));
}

#[test]
fn classify_several_causes_is_operation() {
    assert_eq!(StatusSnapshot::from_bits(SR_PGAERR | SR_SIZERR).classify(), Err(Error::Op));
    assert_eq!(StatusSnapshot::from_bits(SR_WRPERR | SR_PROGERR).classify(), Err(Error::Op));
    assert_eq!(
        StatusSnapshot::from_bits(SR_MISSERR | SR_PROGERR | SR_PGSERR).classify(),
        Err(Error::Op)
    );
    assert_eq!(StatusSnapshot::from_bits(u32::MAX).classify(), Err(Error::Op));
}

#[test]
fn classify_never_gives_busy_or_suspend() {
    // All 128 combinations of the seven error flags.
    for bits in 0u32..128 {
        let status = StatusSnapshot {
            busy: true,
            suspend: true,
            eop: true,
            miss: bits & 1 != 0,
            seq: bits & 2 != 0,
            size: bits & 4 != 0,
            align: bits & 8 != 0,
            wp: bits & 16 != 0,
            prog: bits & 32 != 0,
            op: bits & 64 != 0,
        };
        let result = status.classify();
        assert_ne!(result, Err(Error::Busy));
        assert_ne!(result, Err(Error::Suspend));
        assert_eq!(result.is_ok(), bits == 0);
    }
}

#[test]
fn wait_for_eop_waits_while_eop_is_clear() {
    assert_eq!(Flash::<()>::wait_for_eop(0), None);
    assert_eq!(Flash::<()>::wait_for_eop(SR_BSY), None);
    // An error flag alone does not end the wait.
    assert_eq!(Flash::<()>::wait_for_eop(SR_PGAERR), None);
    assert_eq!(Flash::<()>::wait_for_eop(u32::MAX & !SR_EOP), None);
}

#[test]
fn wait_for_eop_classifies_once_eop_is_set() {
    assert_eq!(Flash::<()>::wait_for_eop(SR_EOP), Some(Ok(())));
    assert_eq!(Flash::<()>::wait_for_eop(SR_EOP | SR_BSY), Some(Ok(())));
    assert_eq!(Flash::<()>::wait_for_eop(SR_EOP | SR_PROGERR), Some(Err(Error::Prog)));
    assert_eq!(Flash::<()>::wait_for_eop(SR_EOP | SR_OPERR), Some(Err(Error::Op)));
    assert_eq!(Flash::<()>::wait_for_eop(SR_EOP | SR_PGSERR), Some(Err(Error::Sequence)));
    // FASTERR and RDERR are no result of standard programming.
    assert_eq!(Flash::<()>::wait_for_eop(SR_EOP | SR_FASTERR | SR_RDERR), Some(Ok(())));
}
