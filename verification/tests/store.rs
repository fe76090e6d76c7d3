use sign_firmware::eeprom::{
    BusEvent, Command, Eeprom, InitAction, InitMachine, InitState, Metadata, test_pattern,
};
use sign_firmware::StoreError;

/// A memory device executing command batches: reads hand back bytes, page
/// writes must stay inside one 256-byte page, erase blanks the device.
struct Sim {
    mem: Vec<u8>,
    corrupt_reads: bool,
}

impl Sim {
    fn new() -> Sim {
        Sim { mem: vec![0u8; 0x200], corrupt_reads: false }
    }

    fn run(&mut self, cmds: &[Command]) -> BusEvent {
        let mut last_read: Option<Vec<u8>> = None;
        for c in cmds {
            match c {
                Command::Read { address, len } => {
                    let a = *address as usize;
                    let mut data = self.mem[a..a + *len].to_vec();
                    if self.corrupt_reads && !data.is_empty() {
                        data[0] ^= 0xFF;
                    }
                    last_read = Some(data);
                }
                Command::PageWrite { address, data } => {
                    assert!(
                        data.len() <= 256 - (*address as usize % 256),
                        "page write crosses a page boundary"
                    );
                    let a = *address as usize;
                    self.mem[a..a + data.len()].copy_from_slice(data);
                }
                Command::Erase => {
                    for b in self.mem.iter_mut() {
                        *b = 0;
                    }
                }
                Command::ReadStatus => {
                    last_read = Some(vec![0]);
                }
                Command::WriteEnable | Command::WriteStatus(_) => {}
            }
        }
        match last_read {
            Some(v) => BusEvent::Bytes(v),
            None => BusEvent::Ack,
        }
    }
}

fn drive(sim: &mut Sim) -> (InitMachine, InitAction) {
    let (mut machine, mut action) = InitMachine::start();
    loop {
        match action {
            InitAction::Issue(cmds) => {
                let event = sim.run(&cmds);
                action = machine.step(event);
            }
            other => return (machine, other),
        }
    }
}

#[test]
fn valid_record_is_adopted_as_is() {
    let mut sim = Sim::new();
    sim.mem[0x10] = 1;
    sim.mem[0x11] = 5;
    let (machine, outcome) = drive(&mut sim);
    assert_eq!(machine.state, InitState::Complete);
    assert_eq!(
        outcome,
        InitAction::Done(Metadata { config_version: 1, written_configs: 5 })
    );
}

#[test]
fn self_test_leaves_the_pattern_at_address_zero() {
    let mut sim = Sim::new();
    sim.mem[0x10] = 1;
    let (_, outcome) = drive(&mut sim);
    assert!(matches!(outcome, InitAction::Done(_)));
    assert_eq!(&sim.mem[0..8], test_pattern().as_slice());
}

#[test]
fn self_test_mismatch_halts_initialization() {
    let mut sim = Sim::new();
    sim.corrupt_reads = true;
    let (machine, outcome) = drive(&mut sim);
    assert_eq!(machine.state, InitState::Failed);
    assert_eq!(outcome, InitAction::Abort(StoreError::SelfTestFailure));
}

#[test]
fn blank_device_is_erased_and_given_the_default_record() {
    // A blank or erased device reads schema version 0.
    let mut sim = Sim::new();
    sim.mem[0x10] = 0;
    sim.mem[0x11] = 7;
    sim.mem[0x20] = 9; // stale data the erase must wipe
    let (machine, outcome) = drive(&mut sim);
    assert_eq!(machine.state, InitState::Complete);
    assert_eq!(
        outcome,
        InitAction::Done(Metadata { config_version: 1, written_configs: 0 })
    );
    assert_eq!(&sim.mem[0x10..0x12], &[1, 0]);
    assert_eq!(sim.mem[0x20], 0);
}

#[test]
fn bus_failure_is_fatal_in_any_state() {
    let (mut machine, _) = InitMachine::start();
    let outcome = machine.step(BusEvent::BusError);
    assert_eq!(machine.state, InitState::Failed);
    assert_eq!(outcome, InitAction::Abort(StoreError::Transport));
}

#[test]
fn metadata_round_trips_through_its_wire_form() {
    let m = Metadata { config_version: 1, written_configs: 5 };
    let encoded = m.encode();
    assert_eq!(encoded, vec![1, 5]);
    let decoded = Metadata::decode(encoded.as_slice());
    assert_eq!(decoded, m);
}

#[test]
fn write_config_rewrites_only_the_metadata_region() {
    let store = Eeprom { metadata: Metadata { config_version: 1, written_configs: 5 } };
    let ops = store.write_config();
    assert_eq!(ops.len(), 2);
    assert_eq!(ops[0], Command::WriteEnable);
    assert_eq!(ops[1], Command::PageWrite { address: 0x10, data: vec![1, 5] });
}
