use pico_gnss::assembler::{nmea_checksum_valid, NmeaLineAssembler};
use pico_gnss::mt3333::{
    dynmodel_code, follow_port, hears_nmea, is_fw_version_response, op_mode, pmtk886_for,
    pmtk_init, pmtk_line, source_trusted, BaudProbe, ConfigSequence, ConfigStep, LinkAction,
    LinkOutcome, LinkSetup, OpMode, ProbeStep, GNSS_BAUD, GNSS_FAST_BAUD, PMTK_INIT_LEN,
    RAISE_COMMAND,
};

#[test]
fn command_is_framed_with_its_checksum() {
    let line = pmtk_line("PMTK605", 96).unwrap();
    assert_eq!(line.as_bytes(), b"$PMTK605*31\r\n");
    let line = pmtk_line(RAISE_COMMAND, 64).unwrap();
    assert_eq!(line.as_bytes(), b"$PMTK251,115200*1F\r\n");
    let text = core::str::from_utf8(line.as_bytes()).unwrap();
    assert!(nmea_checksum_valid(text));
}

#[test]
fn every_init_command_fits_and_is_read_back() {
    for i in 0..PMTK_INIT_LEN {
        let line = pmtk_line(pmtk_init(i).unwrap(), 96).unwrap();
        let mut a = NmeaLineAssembler::new();
        let mut sentences = Vec::new();
        for &b in line.as_bytes() {
            if let Some(s) = a.push(b) {
                sentences.push(s.to_vec());
            }
        }
        assert_eq!(sentences.len(), 1);
        assert_eq!(sentences[0], line.as_bytes()[..line.as_bytes().len() - 2].to_vec());
    }
    assert_eq!(pmtk_init(PMTK_INIT_LEN), None);
    assert_eq!(pmtk_init(0), Some("PMTK886,4"));
    assert_eq!(pmtk_init(4), Some("PMTK314,1,1,1,1,1,1,0,1,0,0,0,0,0,0,0,0,0,1,0"));
}

#[test]
fn overlong_command_is_not_truncated() {
    let fits = "P".repeat(90);
    let long = "P".repeat(91);
    assert_eq!(pmtk_line(&fits, 96).unwrap().as_bytes().len(), 96);
    assert!(pmtk_line(&long, 96).is_none());
    assert!(pmtk_line("", 5).is_none());
    assert_eq!(pmtk_line("", 6).unwrap().as_bytes(), b"$*00\r\n");
}

#[test]
fn dynamic_models_have_commands_and_codes() {
    assert_eq!(op_mode(), OpMode::FixedTiming);
    assert_eq!(OpMode::FixedTiming.pmtk886(), "PMTK886,4");
    assert_eq!(OpMode::Mobile.pmtk886(), "PMTK886,0");
    assert_eq!(OpMode::FixedTiming.code(), 4);
    assert_eq!(OpMode::Mobile.code(), 0);
    assert_eq!(pmtk886_for(4), "PMTK886,4");
    assert_eq!(pmtk886_for(255), "PMTK886,0");
}

#[test]
fn dynamic_models_alternate_abba() {
    let codes: Vec<u32> = (0..8).map(dynmodel_code).collect();
    assert_eq!(codes, vec![4, 0, 0, 4, 4, 0, 0, 4]);
}

#[test]
fn configuration_sends_everything_once() {
    let mut c = ConfigSequence::new(false);
    let mut sent = Vec::new();
    loop {
        match c.step() {
            ConfigStep::Send { command } => sent.push(command),
            ConfigStep::Configured { mode } => assert_eq!(mode, 4),
            ConfigStep::Finished => break,
            ConfigStep::Alternate { .. } => panic!("not asked for"),
        }
    }
    assert_eq!(sent.len(), PMTK_INIT_LEN);
    assert_eq!(sent[5], "PMTK605");
}

#[test]
fn configuration_can_alternate_afterwards() {
    let mut c = ConfigSequence::new(true);
    for _ in 0..PMTK_INIT_LEN + 1 {
        let _ = c.step();
    }
    let mut modes = Vec::new();
    for _ in 0..6 {
        match c.step() {
            ConfigStep::Alternate { command, mode } => {
                assert_eq!(command, pmtk886_for(mode));
                modes.push(mode);
            }
            _ => panic!("out of turn"),
        }
    }
    assert_eq!(modes, vec![4, 0, 0, 4, 4, 0]);
}

#[test]
fn nmea_is_heard_across_reads() {
    let mut a = NmeaLineAssembler::new();
    assert!(!hears_nmea(&mut a, b"\x80\x12garbage$GPRMC,12"));
    assert!(!hears_nmea(&mut a, b"3519,A"));
    assert!(hears_nmea(&mut a, b"*00\r\n$G"));
}

#[test]
fn only_gnss_talkers_show_the_rate() {
    let mut a = NmeaLineAssembler::new();
    assert!(!hears_nmea(&mut a, b"$PMTK011,MTKGPS*08\r\n"));
    assert!(!hears_nmea(&mut a, b"$\r\n"));
    assert!(hears_nmea(&mut a, b"$PMTK010,001*2E\r\n$GNZDA,1\r"));
}

#[test]
fn firmware_version_reply_is_recognised() {
    assert!(is_fw_version_response("$PMTK705,AXN_5.1.7*33"));
    assert!(is_fw_version_response("$PMTK705"));
    assert!(!is_fw_version_response("$PMTK70"));
    assert!(!is_fw_version_response("$PMTK001,886,3*36"));
    assert!(!is_fw_version_response(""));
}

#[test]
fn probe_tries_each_rate_once() {
    let mut p = BaudProbe::new();
    assert_eq!(p.baud(), GNSS_BAUD);
    assert_eq!(p.on_listened(false), ProbeStep::Listen { baud: GNSS_FAST_BAUD });
    assert_eq!(p.baud(), GNSS_FAST_BAUD);
    assert_eq!(p.on_listened(false), ProbeStep::Nothing);
    let mut p = BaudProbe::new();
    assert_eq!(p.on_listened(true), ProbeStep::Found { baud: 9600 });
    let mut p = BaudProbe { fast: true };
    assert_eq!(p.on_listened(true), ProbeStep::Found { baud: 115_200 });
    assert_eq!(follow_port(Some(115_200)), 115_200);
    assert_eq!(follow_port(None), 9600);
}

fn establish(restores: bool, heard: &[bool]) -> LinkAction {
    let mut s = LinkSetup::new(restores);
    let mut action = LinkAction::Listen { baud: GNSS_BAUD };
    let mut answers = heard.iter();
    loop {
        action = match action {
            LinkAction::Listen { .. } => s.on_listened(*answers.next().unwrap()),
            LinkAction::Raise => s.on_raised(),
            done => return done,
        };
    }
}

#[test]
fn link_outcomes_follow_what_was_heard() {
    let done = |baud, set_port, outcome| LinkAction::Done { baud, set_port, outcome };
    assert_eq!(
        establish(true, &[false, true]),
        done(GNSS_FAST_BAUD, false, LinkOutcome::AlreadyFast)
    );
    assert_eq!(
        establish(true, &[true, false, true]),
        done(GNSS_FAST_BAUD, false, LinkOutcome::Raised)
    );
    assert_eq!(
        establish(true, &[true, true]),
        done(GNSS_BAUD, false, LinkOutcome::NotTaken)
    );
    assert_eq!(
        establish(true, &[true, false, false]),
        done(GNSS_BAUD, true, LinkOutcome::Lost)
    );
    assert_eq!(
        establish(true, &[false, false]),
        done(GNSS_BAUD, true, LinkOutcome::Silent)
    );
    assert_eq!(
        establish(false, &[false, false]),
        done(GNSS_BAUD, false, LinkOutcome::Silent)
    );
}

#[test]
fn only_the_raised_rate_is_trusted() {
    assert!(source_trusted(GNSS_FAST_BAUD));
    assert!(!source_trusted(GNSS_BAUD));
}
