use anx7625::i2c::{next_step, I2cOutcome, I2cStep, I2cTransfer, I2C_ERROR, I2C_OK};

/// Runs a transfer against a bus that answers the write with `write_ok` and
/// the read with `read_ok`, and records the steps.
fn run(t: I2cTransfer, write_ok: bool, read_ok: bool) -> Vec<I2cStep> {
    let mut steps = Vec::new();
    let mut outcome = I2cOutcome::Begin;
    loop {
        let step = next_step(&t, outcome);
        steps.push(step.clone());
        match step {
            I2cStep::Write { .. } => outcome = I2cOutcome::Written { ok: write_ok },
            I2cStep::Read { .. } => outcome = I2cOutcome::Read { ok: read_ok },
            I2cStep::Finish { .. } => return steps,
        }
    }
}

#[test]
fn writeb_sends_offset_then_value() {
    let t = I2cTransfer::WriteByte { addr: 0x58, offset: 0x10, val: 0xab };
    assert_eq!(
        run(t, true, true),
        vec![
            I2cStep::Write { addr: 0x58, bytes: vec![0x10, 0xab] },
            I2cStep::Finish { status: I2C_OK },
        ]
    );
}

#[test]
fn writeb_failure() {
    let t = I2cTransfer::WriteByte { addr: 0x58, offset: 0x10, val: 0xab };
    assert_eq!(run(t, false, true).last(), Some(&I2cStep::Finish { status: -1 }));
}

#[test]
fn readb_writes_offset_then_reads_one() {
    let t = I2cTransfer::ReadByte { addr: 0x3b, offset: 0x02 };
    assert_eq!(
        run(t, true, true),
        vec![
            I2cStep::Write { addr: 0x3b, bytes: vec![0x02] },
            I2cStep::Read { addr: 0x3b, len: 1 },
            I2cStep::Finish { status: 0 },
        ]
    );
}

#[test]
fn readb_skips_read_after_failed_write() {
    let t = I2cTransfer::ReadByte { addr: 0x3b, offset: 0x02 };
    assert_eq!(
        run(t, false, true),
        vec![
            I2cStep::Write { addr: 0x3b, bytes: vec![0x02] },
            I2cStep::Finish { status: I2C_ERROR },
        ]
    );
}

#[test]
fn readb_failed_read() {
    let t = I2cTransfer::ReadByte { addr: 0x3b, offset: 0x02 };
    assert_eq!(run(t, true, false).last(), Some(&I2cStep::Finish { status: -1 }));
}

#[test]
fn read_bytes_requests_len() {
    let t = I2cTransfer::ReadBytes { addr: 0x50, offset: 0x80, len: 128 };
    assert_eq!(
        run(t, true, true),
        vec![
            I2cStep::Write { addr: 0x50, bytes: vec![0x80] },
            I2cStep::Read { addr: 0x50, len: 128 },
            I2cStep::Finish { status: 0 },
        ]
    );
}

#[test]
fn protocol_status_on_all_outcomes() {
    let transfers = [
        I2cTransfer::WriteByte { addr: 1, offset: 2, val: 3 },
        I2cTransfer::ReadByte { addr: 1, offset: 2 },
        I2cTransfer::ReadBytes { addr: 1, offset: 2, len: 5 },
    ];
    for t in transfers {
        for write_ok in [false, true] {
            for read_ok in [false, true] {
                let steps = run(t, write_ok, read_ok);
                assert!(steps.len() >= 2 && steps.len() <= 3);
                let reads = !matches!(t, I2cTransfer::WriteByte { .. });
                let expected = if write_ok && (!reads || read_ok) { 0 } else { -1 };
                assert_eq!(steps.last(), Some(&I2cStep::Finish { status: expected }));
                assert_eq!(steps.len() == 3, write_ok && reads);
            }
        }
    }
}
