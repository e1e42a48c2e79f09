use std::cell::RefCell;
use std::rc::Rc;

use tuner::authenticator::{MazdaAuthenticator, MAZDA_INITIAL_PARAMETER};
use tuner::can::{CanInterface, Message};
use tuner::datalog::{formula_inputs, UdsLogger};
use tuner::definition::{
    DataType, DownloadMode, Endianness, FlashMode, Identifier, LogMode, Main, Model, Pid, Transfer,
};
use tuner::diagnostics::{decode_codes, Code, UdsScanner};
use tuner::download::{
    next_block_len, next_read, take_block, Mazda1Downloader, NoProgress, Progress, ProgressObserver,
};
use tuner::error::Error;
use tuner::flash::{
    block_end_at, request_download_body, transfer_block, transfer_count, FlashData, Mazda1Flasher,
};
use tuner::link::{DataLink, PlatformLink};
use tuner::rom::RomManager;

/// An ECU simulated at the UDS level: it grants security access and serves
/// memory reads with ascending bytes, a few at a time.
struct Ecu {
    requests: Rc<RefCell<Vec<(u8, Vec<u8>)>>>,
    read_size: usize,
    next_byte: RefCell<u8>,
}

impl Ecu {
    fn new(read_size: usize) -> Ecu {
        Ecu { requests: Rc::new(RefCell::new(Vec::new())), read_size, next_byte: RefCell::new(0) }
    }

}

impl tuner::uds::UdsInterface for Ecu {
    fn request(&self, sid: u8, data: &[u8]) -> Result<Vec<u8>, Error> {
        self.requests.borrow_mut().push((sid, data.to_vec()));
        match sid {
            0x10 => Ok(vec![data[0]]),
            0x27 if data[0] == 1 => Ok(vec![1, 0, 0, 0, 0, 0, 0, 0, 0]),
            0x27 => Ok(vec![2]),
            0x23 => {
                let asked = (data[4] as usize) << 8 | data[5] as usize;
                let n = asked.min(self.read_size);
                let mut out = Vec::new();
                for _ in 0..n {
                    let mut b = self.next_byte.borrow_mut();
                    out.push(*b);
                    *b = b.wrapping_add(1);
                }
                Ok(out)
            }
            0x22 => Ok(vec![data[0], data[1], 0x10, 0x20, 0x30, 0x40]),
            0x03 => Ok(vec![2, 0x01, 0x43, 0xC2, 0x34]),
            _ => Ok(vec![]),
        }
    }
}

struct Recorder {
    seen: Vec<(u64, u64)>,
}

impl ProgressObserver for Recorder {
    fn progress(&mut self, done: u64, total: u64) {
        self.seen.push((done, total));
    }
}

#[test]
fn mazda_key_golden_vector() {
    let key = MazdaAuthenticator::generate_key("MazdA", 0x00C5_41A9, &[0; 8]);
    assert_eq!(key, [0xBF, 0x48, 0xFB]);
    let key = MazdaAuthenticator::generate_key("MazdA", MAZDA_INITIAL_PARAMETER, &[1, 2, 3, 4, 5, 6, 7, 8]);
    assert_eq!(key, [0xEF, 0x85, 0x6C]);
    assert_eq!(MazdaAuthenticator::generate_key("", MAZDA_INITIAL_PARAMETER, &[]), [0x1A, 0x4C, 0x95]);
}

#[test]
fn key_derivation_is_deterministic() {
    let seed = [0x12, 0x34, 0x56, 0x78, 0x9A, 0xBC, 0xDE, 0xF0];
    let a = MazdaAuthenticator::generate_key("MazdA", MAZDA_INITIAL_PARAMETER, &seed);
    let b = MazdaAuthenticator::generate_key("MazdA", MAZDA_INITIAL_PARAMETER, &seed);
    assert_eq!(a, b);
    let c = MazdaAuthenticator::generate_key("MazdB", MAZDA_INITIAL_PARAMETER, &seed);
    assert_ne!(a, c);
}

#[test]
fn authenticate_runs_session_seed_key() {
    let ecu = Ecu::new(4);
    MazdaAuthenticator {}.authenticate("MazdA", &ecu, 0x87).unwrap();
    let reqs = ecu.requests.borrow();
    assert_eq!(reqs[0], (0x10, vec![0x87]));
    assert_eq!(reqs[1], (0x27, vec![0x01]));
    assert_eq!(reqs[2], (0x27, vec![0x02, 0xBF, 0x48, 0xFB]));
}

#[test]
fn download_five_kib_in_small_reads() {
    let ecu = Ecu::new(4);
    let downloader = Mazda1Downloader::new(ecu, "MazdA", 5120);
    let mut progress = Progress::new(Recorder { seen: Vec::new() });
    let data = downloader.download(&mut progress).unwrap().data;
    assert_eq!(data.len(), 5120);
    for (i, b) in data.iter().enumerate() {
        assert_eq!(*b, i as u8);
    }
    assert_eq!(progress.observer().seen.len(), 1280);
    for w in progress.observer().seen.windows(2) {
        assert!(w[0].0 < w[1].0);
    }
    assert_eq!(*progress.observer().seen.last().unwrap(), (5120, 5120));
}

#[test]
fn download_uses_at_most_one_exchange_per_frame_plus_one() {
    let ecu = Ecu::new(4);
    let log = ecu.requests.clone();
    let downloader = Mazda1Downloader::new(ecu, "MazdA", 5120);
    downloader.download(&mut Progress::new(NoProgress {})).unwrap();
    let reads = log.borrow().iter().filter(|r| r.0 == 0x23).count();
    assert_eq!(reads, 1280);
    assert!(reads <= 1281);
    assert_eq!(log.borrow()[3], (0x23, vec![0, 0, 0, 0, 0x0F, 0xFE]));
    assert_eq!(log.borrow()[4], (0x23, vec![0, 0, 0, 4, 0x0F, 0xFE]));
}

#[test]
fn download_blocks_are_capped() {
    assert_eq!(next_block_len(10_000), 0xFFE);
    assert_eq!(next_block_len(0xFFE), 0xFFE);
    assert_eq!(next_block_len(7), 7);
    let ecu = Ecu::new(0x2000);
    let downloader = Mazda1Downloader::new(ecu, "MazdA", 0x2000);
    let mut progress = Progress::new(Recorder { seen: Vec::new() });
    downloader.download(&mut progress).unwrap();
    assert_eq!(progress.observer().seen, vec![(0xFFE, 0x2000), (0x1FFC, 0x2000), (0x2000, 0x2000)]);
}

#[test]
fn download_fails_on_empty_read() {
    let ecu = Ecu::new(0);
    let downloader = Mazda1Downloader::new(ecu, "MazdA", 16);
    assert!(matches!(downloader.download(&mut Progress::new(NoProgress {})), Err(Error::EmptyPacket)));
}

/// A UDS ECU that records every request and answers each positively.
struct FlashEcu {
    requests: Rc<RefCell<Vec<(u8, Vec<u8>)>>>,
}

impl tuner::uds::UdsInterface for FlashEcu {
    fn request(&self, sid: u8, data: &[u8]) -> Result<Vec<u8>, Error> {
        self.requests.borrow_mut().push((sid, data.to_vec()));
        match sid {
            0x10 => Ok(vec![data[0]]),
            0x27 if data[0] == 1 => Ok(vec![1, 9, 9, 9]),
            _ => Ok(vec![]),
        }
    }
}

#[test]
fn flash_transfers_in_capped_blocks() {
    let ecu = FlashEcu { requests: Rc::new(RefCell::new(Vec::new())) };
    let log = ecu.requests.clone();
    let flasher = Mazda1Flasher::new(ecu, "MazdA");
    let image: Vec<u8> = vec![0xA5; 100];
    flasher.flash(&FlashData::new(0, &image), &mut Progress::new(NoProgress {})).unwrap();
    let transfers: Vec<usize> = log.borrow().iter().filter(|r| r.0 == 0x36).map(|r| r.1.len()).collect();
    assert_eq!(transfers, vec![100]);
}

#[test]
fn flash_request_sequence_and_chunk_sizes() {
    let ecu = FlashEcu { requests: Rc::new(RefCell::new(Vec::new())) };
    let log = ecu.requests.clone();
    let flasher = Mazda1Flasher::new(ecu, "MazdA");
    let image: Vec<u8> = (0..8190u32).map(|i| i as u8).collect();
    let mut progress = Progress::new(Recorder { seen: Vec::new() });
    let data = FlashData::new(0x2000, &image);
    flasher.flash(&data, &mut progress).unwrap();
    let ecu_requests = log.borrow().clone();
    assert_eq!(ecu_requests[0], (0x10, vec![0x85]));
    assert_eq!(ecu_requests[3], (0xB1, vec![0x00, 0xB2, 0x00]));
    assert_eq!(ecu_requests[4], (0x34, vec![0x00, 0x00, 0x20, 0x00, 0x00, 0x00, 0x1F, 0xFE]));
    let transfers: Vec<&Vec<u8>> = ecu_requests.iter().filter(|r| r.0 == 0x36).map(|r| &r.1).collect();
    assert_eq!(transfers.len(), 3);
    assert_eq!(transfers.iter().map(|t| t.len()).collect::<Vec<_>>(), vec![0xFFE, 0xFFE, 2]);
    let joined: Vec<u8> = transfers.iter().flat_map(|t| t.iter().cloned()).collect();
    assert_eq!(joined, image);
    assert_eq!(progress.observer().seen, vec![(0xFFE, 8190), (0x1FFC, 8190), (8190, 8190)]);
}

#[test]
fn request_download_body_layout() {
    assert_eq!(request_download_body(0x0001_0000, 0x80000), vec![0, 1, 0, 0, 0, 8, 0, 0]);
}

#[test]
fn trouble_code_text() {
    assert_eq!(Code { raw: [0x01, 0x43] }.to_code_string(), "P0143");
    assert_eq!(Code { raw: [0xC2, 0x34] }.to_code_string(), "U0234");
    assert_eq!(Code { raw: [0x5F, 0xAB] }.to_code_string(), "C1FAB");
    assert_eq!(Code { raw: [0x80, 0x00] }.to_code_string(), "B0000");
    assert_eq!(Code { raw: [0x01, 0x43] }.chars(), vec!['P', '0', '1', '4', '3']);
}

#[test]
fn trouble_codes_from_response() {
    let codes = decode_codes(&[2, 0x01, 0x43, 0xC2, 0x34, 0x99]);
    assert_eq!(codes.len(), 2);
    assert_eq!(codes[1].raw, [0xC2, 0x34]);
    assert!(decode_codes(&[]).is_empty());
    assert!(decode_codes(&[0]).is_empty());
    let scanner = UdsScanner::new(Ecu::new(4));
    let found: Vec<String> = scanner.scan().unwrap().iter().map(|c| c.to_code_string()).collect();
    assert_eq!(found, vec!["P0143".to_string(), "U0234".to_string()]);
}

fn pid(id: u32, code: u16) -> Pid {
    Pid {
        name: "rpm".to_string(),
        description: String::new(),
        formula: "(a*256+b)/4".to_string(),
        unit: "rpm".to_string(),
        datatype: DataType::Uint16,
        id,
        code,
    }
}

#[test]
fn datalogger_stops_after_pass() {
    let mut logger = UdsLogger::new(Ecu::new(4));
    assert_eq!(logger.add_entry(&pid(1, 0x010A)), 0);
    assert_eq!(logger.add_entry(&pid(2, 0x010B)), 1);
    assert_eq!(logger.entry(1).code, 0x010B);
    assert!(logger.run_pass().unwrap().is_none());
    logger.start();
    assert!(logger.is_running());
    let samples = logger.run_pass().unwrap().unwrap();
    assert_eq!(samples.len(), 2);
    assert_eq!(samples[0].pid_id, 1);
    assert_eq!(samples[0].inputs, vec![0x10, 0x20, 0x30]);
    logger.stop();
    assert!(logger.run_pass().unwrap().is_none());
}

#[test]
fn datalogger_sends_nothing_once_stopped() {
    let ecu = Ecu::new(4);
    let log = ecu.requests.clone();
    let mut logger = UdsLogger::new(ecu);
    logger.add_entry(&pid(1, 0x010A));
    logger.start();
    logger.run_pass().unwrap();
    assert_eq!(log.borrow().len(), 1);
    assert_eq!(log.borrow()[0], (0x22, vec![0x01, 0x0A]));
    logger.stop();
    assert!(logger.run_pass().unwrap().is_none());
    assert!(logger.run_pass().unwrap().is_none());
    assert_eq!(log.borrow().len(), 1);
}

#[test]
fn formula_inputs_take_three_bytes() {
    assert_eq!(formula_inputs(&[1, 2, 3, 4]), vec![1, 2, 3]);
    assert_eq!(formula_inputs(&[1]), vec![1]);
    assert!(formula_inputs(&[]).is_empty());
}

fn model(id: &str, identifiers: Vec<Identifier>) -> Model {
    Model { id: id.to_string(), name: id.to_string(), identifiers }
}

fn platform() -> Main {
    Main {
        name: "Mazdaspeed6".to_string(),
        id: "mazdaspeed6".to_string(),
        transfer: Transfer {
            download_mode: DownloadMode::Mazda1,
            flash_mode: FlashMode::Disabled,
            key: "MazdA".to_string(),
            server_id: 0x7E0,
        },
        baudrate: 500_000,
        log_mode: LogMode::Uds,
        endianness: Endianness::Big,
        flash_offset: 0x2000,
        flash_size: 0x7E000,
        rom_size: 0x80000,
        pids: vec![pid(1, 0x010A)],
        vins: Vec::new(),
        models: vec![
            model("a", vec![Identifier { offset: 2, data: vec![9, 9] }]),
            model("b", vec![Identifier { offset: 1, data: vec![5, 6] }, Identifier { offset: 4, data: vec![8] }]),
        ],
    }
}

#[test]
fn models_identify_firmware() {
    let p = platform();
    assert!(p.models[1].identify(&[0, 5, 6, 0, 8]));
    assert!(!p.models[1].identify(&[0, 5, 6, 0]));
    assert!(!p.models[0].identify(&[0, 5, 6, 0, 8]));
    assert!(model("any", vec![]).identify(&[]));
    assert_eq!(p.identify(&[0, 5, 6, 0, 8]), Some(1));
    assert_eq!(p.identify(&[0, 0, 9, 9]), Some(0));
    assert_eq!(p.identify(&[1, 2, 3]), None);
}

struct NullCan;

impl CanInterface for NullCan {
    fn send(&self, _id: u32, _message: &[u8]) -> Result<(), Error> {
        Ok(())
    }

    fn recv(&self, _timeout_us: u64) -> Result<Message, Error> {
        Err(Error::Timeout)
    }
}

struct FakeLink {
    available: bool,
}

impl DataLink for FakeLink {
    type Can = NullCan;

    fn can(&self, _baudrate: usize) -> Option<NullCan> {
        if self.available { Some(NullCan) } else { None }
    }
}

#[test]
fn platform_link_choices() {
    let link = PlatformLink::new(FakeLink { available: true }, platform());
    let o = link.isotp_options();
    assert_eq!((o.source_id, o.dest_id, o.timeout_us), (0x7E0, 0x7E8, 1_000_000));
    assert_eq!(link.isotp().unwrap().options.dest_id, 0x7E8);
    assert!(link.uds().is_some());
    assert!(link.downloader().is_some());
    assert!(link.flasher().is_none());
    assert!(link.datalogger().is_some());
    assert!(link.downloader_with(Ecu::new(4)).is_some());
    assert!(link.flasher_with(Ecu::new(4)).is_none());
    assert!(link.datalogger_with(Ecu::new(4)).is_some());
    let offline = PlatformLink::new(FakeLink { available: false }, platform());
    assert!(offline.isotp().is_none());
    assert!(offline.downloader().is_none());
}

#[test]
fn mode_defaults_are_none() {
    assert_eq!(DownloadMode::default(), DownloadMode::Disabled);
    assert_eq!(FlashMode::default(), FlashMode::Disabled);
    assert_eq!(LogMode::default(), LogMode::Disabled);
}

#[test]
fn download_block_steps() {
    assert_eq!(take_block(4, &[]), Err(Error::EmptyPacket));
    assert_eq!(take_block(2, &[1, 2, 3]), Err(Error::InvalidPacket));
    assert_eq!(take_block(4, &[1, 2, 3]), Ok(3));
    assert_eq!(next_read(0, 5120), (0, 0xFFE));
    assert_eq!(next_read(5000, 5120), (5000, 120));
}

/// An ECU that answers every memory read with one byte more than asked.
struct OverlongEcu;

impl tuner::uds::UdsInterface for OverlongEcu {
    fn request(&self, sid: u8, data: &[u8]) -> Result<Vec<u8>, Error> {
        match sid {
            0x10 => Ok(vec![data[0]]),
            0x27 if data[0] == 1 => Ok(vec![1, 0]),
            0x23 => Ok(vec![0; ((data[4] as usize) << 8 | data[5] as usize) + 1]),
            _ => Ok(vec![]),
        }
    }
}

#[test]
fn download_rejects_overlong_answer() {
    let downloader = Mazda1Downloader::new(OverlongEcu, "MazdA", 4);
    assert!(matches!(downloader.download(&mut Progress::new(NoProgress {})), Err(Error::InvalidPacket)));
}

#[test]
fn transfer_plan_blocks() {
    assert_eq!(transfer_count(0), 0);
    assert_eq!(transfer_count(1), 1);
    assert_eq!(transfer_count(0xFFE), 1);
    assert_eq!(transfer_count(8190), 3);
    assert_eq!(block_end_at(8190, 1), 0xFFE);
    assert_eq!(block_end_at(8190, 3), 8190);
    let image: Vec<u8> = (0..8190u32).map(|i| i as u8).collect();
    assert_eq!(transfer_block(&image, 0), &image[0..0xFFE]);
    assert_eq!(transfer_block(&image, 2), &image[0x1FFC..8190]);
}

#[test]
fn progress_tracks_last_report() {
    let mut p = Progress::new(Recorder { seen: Vec::new() });
    assert_eq!(p.last_reported(), 0);
    p.report(3, 10);
    p.report(10, 10);
    assert_eq!(p.last_reported(), 10);
    assert_eq!(p.observer().seen, vec![(3, 10), (10, 10)]);
}

#[test]
fn rom_registry_finds_first_match() {
    let mut roms = RomManager::new("roms".to_string());
    let plat = Rc::new(platform());
    let m = Rc::new(model("b", vec![]));
    let rom = roms.new_rom("first".to_string(), "x1".to_string(), plat.clone(), m.clone(), vec![1, 2]);
    assert_eq!(rom.data, vec![1, 2]);
    assert_eq!(rom.meta.data_path, std::path::Path::new("roms").join("x1").to_string_lossy());
    roms.new_rom("second".to_string(), "x1".to_string(), plat.clone(), m.clone(), vec![]);
    roms.new_rom("third".to_string(), "y2".to_string(), plat, m, vec![]);
    assert_eq!(roms.roms.len(), 3);
    assert_eq!(roms.search("x1").unwrap().name, "first");
    assert_eq!(roms.search("y2").unwrap().name, "third");
    assert!(roms.search("z").is_none());
    let s = roms.roms[2].to_serialized();
    assert_eq!((s.model.as_str(), s.platform.as_str()), ("b", "mazdaspeed6"));
}
