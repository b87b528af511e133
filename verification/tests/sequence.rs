use netboot::acquire::{Acknowledgment, AddressPair, Ipv4};
use netboot::fetch::{zeroed_buffer, Artifact, FetchPolicy};
use netboot::options::LoadOptions;
use netboot::record::{BootArtifactRecord, TableId};
use netboot::sequence::{BootSequence, LoaderState, MemoryClass, Phase, Reply, Request};
use netboot::status::BootError;
use std::collections::BTreeMap;

const SERVER: Ipv4 = Ipv4 { octets: [192, 168, 1, 1] };
const LOCAL: Ipv4 = Ipv4 { octets: [192, 168, 1, 77] };

/// A firmware that answers from a script and records what it was asked.
struct Firmware {
    locate: Result<usize, usize>,
    acquirable: Vec<bool>,
    started: bool,
    acknowledged: bool,
    start: Result<(), usize>,
    configure: Result<(), usize>,
    kernel_size: Result<u64, usize>,
    ramdisk_size: Result<u64, usize>,
    transfer_error: Option<(Artifact, usize)>,
    allocations: Vec<Result<usize, usize>>,
    install: Result<(), usize>,
    load: Result<(), usize>,
    options: Result<(), usize>,
    start_image: Result<(), usize>,
    asked: Vec<Request>,
    memory: BTreeMap<usize, Vec<u8>>,
    table: Vec<(Vec<u8>, usize)>,
    loaded: Vec<(usize, usize)>,
    attached: Vec<Vec<u16>>,
    states: Vec<LoaderState>,
}

fn pattern(len: usize, seed: u8) -> Vec<u8> {
    (0..len).map(|i| (i as u8).wrapping_mul(31).wrapping_add(seed)).collect()
}

fn scripted(kernel_len: u64, ramdisk_len: u64) -> Firmware {
    Firmware {
        locate: Ok(1),
        acquirable: vec![true],
        started: false,
        acknowledged: false,
        start: Ok(()),
        configure: Ok(()),
        kernel_size: Ok(kernel_len),
        ramdisk_size: Ok(ramdisk_len),
        transfer_error: None,
        allocations: vec![Ok(0x1000_0000), Ok(0x0800_0000), Ok(0x2000_0000)],
        install: Ok(()),
        load: Ok(()),
        options: Ok(()),
        start_image: Ok(()),
        asked: Vec::new(),
        memory: BTreeMap::new(),
        table: Vec::new(),
        loaded: Vec::new(),
        attached: Vec::new(),
        states: Vec::new(),
    }
}

fn answer(firmware: &mut Firmware, sequence: &BootSequence, request: Request) -> Reply {
    match request {
        Request::LocateCapability => Reply::Located(firmware.locate),
        Request::OpenCapability { index } => {
            Reply::Completed(if firmware.acquirable[index] { Ok(()) } else { Err(15) })
        }
        Request::QueryStarted => Reply::Flag(firmware.started),
        Request::StartCapability { use_ipv6 } => {
            assert!(!use_ipv6);
            if firmware.start.is_ok() {
                firmware.started = true;
            }
            Reply::Completed(firmware.start)
        }
        Request::QueryAcknowledged => Reply::Flag(firmware.acknowledged),
        Request::ConfigureAddress { sort_offers } => {
            assert!(!sort_offers);
            if firmware.configure.is_ok() {
                firmware.acknowledged = true;
            }
            Reply::Completed(firmware.configure)
        }
        Request::ReadAcknowledgment => {
            Reply::Acknowledged(Acknowledgment { your_address: LOCAL, server_address: SERVER })
        }
        Request::QuerySize { artifact, server } => {
            assert_eq!(server, SERVER);
            Reply::Size(match artifact {
                Artifact::Kernel => firmware.kernel_size,
                Artifact::Ramdisk => firmware.ramdisk_size,
            })
        }
        Request::Transfer { artifact, server, len } => {
            assert_eq!(server, SERVER);
            match firmware.transfer_error {
                Some((failing, code)) if failing == artifact => Reply::Transferred(Err(code)),
                _ => {
                    let mut buffer = zeroed_buffer(len);
                    let seed = if artifact == Artifact::Kernel { 1 } else { 2 };
                    buffer.copy_from_slice(&pattern(len, seed));
                    Reply::Transferred(Ok(buffer))
                }
            }
        }
        Request::AllocatePages { pages: _, class } => {
            assert_eq!(class, MemoryClass::LoaderData);
            Reply::Allocated(firmware.allocations.remove(0))
        }
        Request::CopyPayload { artifact, base, len } => {
            let region = sequence.region(artifact).unwrap();
            assert_eq!(region.base(), base);
            assert_eq!(region.len(), len);
            firmware.memory.insert(base, region.payload().to_vec());
            Reply::Copied
        }
        Request::InstallRecord { page, record } => {
            if firmware.install.is_ok() {
                firmware.memory.insert(page, record.to_bytes());
                firmware.table.push((TableId::ramdisk().to_bytes(), page));
            }
            Reply::Completed(firmware.install)
        }
        Request::LoadImage { base, len } => {
            firmware.loaded.push((base, len));
            Reply::Completed(firmware.load)
        }
        Request::SetLoadOptions => {
            if firmware.options.is_ok() {
                firmware.attached.push(LoadOptions::fixed().units().to_vec());
            }
            Reply::Completed(firmware.options)
        }
        Request::StartImage => Reply::Completed(firmware.start_image),
        Request::Exit { .. } => unreachable!(),
    }
}

/// Drives a sequence to its end and returns it with the exit it asked for.
fn run(firmware: &mut Firmware, policy: FetchPolicy) -> (BootSequence, u64, usize) {
    let mut sequence = BootSequence::new(policy);
    loop {
        let request = sequence.pending();
        firmware.asked.push(request);
        firmware.states.push(sequence.loader_state());
        if let Request::Exit { pause_seconds, status } = request {
            return (sequence, pause_seconds, status);
        }
        let reply = answer(firmware, &sequence, request);
        sequence = sequence.step(reply);
    }
}

fn count(firmware: &Firmware, wanted: fn(&Request) -> bool) -> usize {
    firmware.asked.iter().filter(|request| wanted(request)).count()
}

#[test]
fn a_new_sequence_locates_the_capability() {
    let sequence = BootSequence::new(FetchPolicy::default());
    assert_eq!(sequence.pending(), Request::LocateCapability);
    assert_eq!(sequence.phase(), Phase::Locating);
    assert_eq!(sequence.outcome(), None);
    assert_eq!(sequence.loader_state(), LoaderState::Idle);
    assert_eq!(sequence.capability(), None);
    assert_eq!(sequence.addresses(), None);
    assert!(sequence.region(Artifact::Kernel).is_none());
    assert!(sequence.region(Artifact::Ramdisk).is_none());
}

#[test]
fn discovery_without_handles_is_not_found() {
    let mut firmware = scripted(1, 1);
    firmware.locate = Ok(0);
    firmware.acquirable = Vec::new();
    let (sequence, pause, status) = run(&mut firmware, FetchPolicy::default());
    assert_eq!(sequence.outcome(), Some(Err(BootError::NotFound)));
    assert_eq!(pause, 10);
    assert_eq!(status, uefi::Status::NOT_FOUND.0);
    assert_eq!(
        firmware.asked,
        vec![
            Request::LocateCapability,
            Request::Exit { pause_seconds: 10, status: uefi::Status::NOT_FOUND.0 }
        ]
    );
}

#[test]
fn failed_enumeration_passes_its_status_on() {
    let mut failing = scripted(1, 1);
    failing.locate = Err(uefi::Status::NOT_FOUND.0);
    let (sequence, _, status) = run(&mut failing, FetchPolicy::default());
    assert_eq!(sequence.outcome(), Some(Err(BootError::NotFound)));
    assert_eq!(status, uefi::Status::NOT_FOUND.0);

    let mut exhausted = scripted(1, 1);
    exhausted.locate = Err(uefi::Status::OUT_OF_RESOURCES.0);
    let (sequence, pause, status) = run(&mut exhausted, FetchPolicy::default());
    assert_eq!(
        sequence.outcome(),
        Some(Err(BootError::Status { code: uefi::Status::OUT_OF_RESOURCES.0 }))
    );
    assert_eq!(pause, 10);
    assert_eq!(status, uefi::Status::OUT_OF_RESOURCES.0);
    assert_eq!(exhausted.asked.len(), 2);
}

#[test]
fn discovery_takes_the_first_handle_that_can_be_acquired() {
    let mut firmware = scripted(100, 100);
    firmware.locate = Ok(4);
    firmware.acquirable = vec![false, false, true, true];
    let (sequence, _, _) = run(&mut firmware, FetchPolicy::default());
    assert_eq!(sequence.capability(), Some(2));
    assert_eq!(
        &firmware.asked[..5],
        &[
            Request::LocateCapability,
            Request::OpenCapability { index: 0 },
            Request::OpenCapability { index: 1 },
            Request::OpenCapability { index: 2 },
            Request::QueryStarted,
        ]
    );
    assert_eq!(count(&firmware, |r| matches!(r, Request::OpenCapability { .. })), 3);
}

#[test]
fn discovery_with_no_acquirable_handle_is_not_found() {
    let mut firmware = scripted(100, 100);
    firmware.locate = Ok(3);
    firmware.acquirable = vec![false, false, false];
    let (sequence, pause, status) = run(&mut firmware, FetchPolicy::default());
    assert_eq!(sequence.outcome(), Some(Err(BootError::NotFound)));
    assert_eq!(sequence.capability(), None);
    assert_eq!((pause, status), (10, uefi::Status::NOT_FOUND.0));
    assert_eq!(firmware.asked.len(), 5);
    assert_eq!(count(&firmware, |r| matches!(r, Request::QueryStarted)), 0);
}

#[test]
fn a_stopped_capability_is_started_for_ipv4() {
    let mut firmware = scripted(100, 100);
    run(&mut firmware, FetchPolicy::default());
    assert_eq!(count(&firmware, |r| *r == Request::StartCapability { use_ipv6: false }), 1);
    assert_eq!(count(&firmware, |r| *r == Request::ConfigureAddress { sort_offers: false }), 1);
}

#[test]
fn a_started_capability_is_not_started_again() {
    let mut firmware = scripted(100, 100);
    firmware.started = true;
    let (sequence, _, _) = run(&mut firmware, FetchPolicy::default());
    assert_eq!(sequence.outcome(), Some(Ok(())));
    assert_eq!(count(&firmware, |r| matches!(r, Request::StartCapability { .. })), 0);
}

#[test]
fn a_failed_start_ends_the_sequence() {
    let mut firmware = scripted(100, 100);
    firmware.start = Err(uefi::Status::DEVICE_ERROR.0);
    let (sequence, pause, status) = run(&mut firmware, FetchPolicy::default());
    assert_eq!(
        sequence.outcome(),
        Some(Err(BootError::Status { code: uefi::Status::DEVICE_ERROR.0 }))
    );
    assert_eq!((pause, status), (10, uefi::Status::DEVICE_ERROR.0));
    assert_eq!(count(&firmware, |r| matches!(r, Request::QueryAcknowledged)), 0);
}

#[test]
fn an_acknowledged_configuration_is_not_requested_again() {
    let mut firmware = scripted(100, 100);
    firmware.acknowledged = true;
    let (sequence, _, _) = run(&mut firmware, FetchPolicy::default());
    assert_eq!(sequence.outcome(), Some(Ok(())));
    assert_eq!(count(&firmware, |r| matches!(r, Request::ConfigureAddress { .. })), 0);
    assert_eq!(sequence.addresses(), Some(AddressPair { local: LOCAL, server: SERVER }));
}

#[test]
fn a_second_acquisition_issues_no_second_configuration() {
    let mut firmware = scripted(100, 100);
    run(&mut firmware, FetchPolicy::default());
    assert_eq!(count(&firmware, |r| matches!(r, Request::ConfigureAddress { .. })), 1);
    firmware.allocations = vec![Ok(0x1000), Ok(0x2000), Ok(0x3000)];
    run(&mut firmware, FetchPolicy::default());
    assert_eq!(count(&firmware, |r| matches!(r, Request::ConfigureAddress { .. })), 1);
    assert_eq!(count(&firmware, |r| matches!(r, Request::QueryAcknowledged)), 2);
    assert_eq!(count(&firmware, |r| matches!(r, Request::StartCapability { .. })), 1);
}

#[test]
fn a_failed_configuration_ends_the_sequence() {
    let mut firmware = scripted(100, 100);
    firmware.configure = Err(uefi::Status::TIMEOUT.0);
    let (sequence, _, status) = run(&mut firmware, FetchPolicy::default());
    assert_eq!(sequence.outcome(), Some(Err(BootError::Status { code: uefi::Status::TIMEOUT.0 })));
    assert_eq!(status, uefi::Status::TIMEOUT.0);
    assert_eq!(count(&firmware, |r| matches!(r, Request::ReadAcknowledgment)), 0);
}

#[test]
fn a_kernel_over_the_cap_is_too_large_and_halts_the_sequence() {
    let mut firmware = scripted(40 << 20, 10 << 20);
    let (sequence, pause, status) = run(&mut firmware, FetchPolicy::default());
    assert_eq!(sequence.outcome(), Some(Err(BootError::TooLarge)));
    assert_eq!(sequence.phase(), Phase::Failed { error: BootError::TooLarge });
    assert_eq!((pause, status), (10, uefi::Status::ABORTED.0));
    assert_eq!(count(&firmware, |r| matches!(r, Request::Transfer { .. })), 0);
    assert_eq!(count(&firmware, |r| matches!(r, Request::QuerySize { .. })), 1);
    assert_eq!(
        count(&firmware, |r| matches!(r, Request::QuerySize { artifact: Artifact::Ramdisk, .. })),
        0
    );
    assert_eq!(count(&firmware, |r| matches!(r, Request::AllocatePages { .. })), 0);
    assert_eq!(sequence.loader_state(), LoaderState::Failed);
}

#[test]
fn a_ramdisk_over_the_cap_is_too_large() {
    let mut firmware = scripted(1000, 2000);
    let policy = FetchPolicy { max_kernel_bytes: 1000, max_ramdisk_bytes: 1999 };
    let (sequence, _, status) = run(&mut firmware, policy);
    assert_eq!(sequence.outcome(), Some(Err(BootError::TooLarge)));
    assert_eq!(status, uefi::Status::ABORTED.0);
    assert_eq!(count(&firmware, |r| matches!(r, Request::Transfer { .. })), 1);
    assert_eq!(
        count(&firmware, |r| matches!(r, Request::Transfer { artifact: Artifact::Ramdisk, .. })),
        0
    );
}

#[test]
fn a_missing_file_is_not_found() {
    let mut firmware = scripted(100, 100);
    firmware.kernel_size = Err(uefi::Status::TFTP_ERROR.0);
    let (sequence, pause, status) = run(&mut firmware, FetchPolicy::default());
    assert_eq!(sequence.outcome(), Some(Err(BootError::NotFound)));
    assert_eq!((pause, status), (10, uefi::Status::NOT_FOUND.0));
    assert_eq!(count(&firmware, |r| matches!(r, Request::Transfer { .. })), 0);
}

#[test]
fn a_failed_transfer_passes_its_cause_on() {
    let mut firmware = scripted(100, 100);
    firmware.transfer_error = Some((Artifact::Ramdisk, uefi::Status::TIMEOUT.0));
    let (sequence, pause, status) = run(&mut firmware, FetchPolicy::default());
    assert_eq!(
        sequence.outcome(),
        Some(Err(BootError::Transfer { code: uefi::Status::TIMEOUT.0 }))
    );
    assert_eq!((pause, status), (10, uefi::Status::TIMEOUT.0));
    assert_eq!(count(&firmware, |r| matches!(r, Request::AllocatePages { .. })), 0);
}

#[test]
fn a_transfer_asks_for_a_buffer_of_the_reported_size() {
    let mut firmware = scripted(12_345, 777);
    run(&mut firmware, FetchPolicy::default());
    assert!(firmware.asked.contains(&Request::Transfer {
        artifact: Artifact::Kernel,
        server: SERVER,
        len: 12_345
    }));
    assert!(firmware.asked.contains(&Request::Transfer {
        artifact: Artifact::Ramdisk,
        server: SERVER,
        len: 777
    }));
}

#[test]
fn a_full_run_stages_registers_loads_and_starts() {
    let kernel_len = 2 << 20;
    let ramdisk_len = 10 << 20;
    let mut firmware = scripted(kernel_len as u64, ramdisk_len as u64);
    let (sequence, pause, status) = run(&mut firmware, FetchPolicy::default());

    assert_eq!(sequence.outcome(), Some(Ok(())));
    assert_eq!((pause, status), (0, 0));
    assert_eq!(sequence.loader_state(), LoaderState::Started);

    let ramdisk = sequence.region(Artifact::Ramdisk).unwrap();
    let kernel = sequence.region(Artifact::Kernel).unwrap();
    assert_eq!(ramdisk.base(), 0x1000_0000);
    assert_eq!(ramdisk.len(), ramdisk_len);
    assert_eq!(ramdisk.pages(), 2560);
    assert_eq!(kernel.base(), 0x2000_0000);
    assert_eq!(kernel.len(), kernel_len);
    assert_eq!(kernel.pages(), 512);
    assert_eq!(ramdisk.base() % 4096, 0);
    assert_eq!(kernel.base() % 4096, 0);

    assert_eq!(firmware.memory[&0x1000_0000], pattern(ramdisk_len, 2));
    assert_eq!(firmware.memory[&0x2000_0000], pattern(kernel_len, 1));
    assert_eq!(ramdisk.payload(), &pattern(ramdisk_len, 2)[..]);
    assert_eq!(kernel.payload(), &pattern(kernel_len, 1)[..]);

    assert_eq!(
        firmware
            .asked
            .iter()
            .filter_map(|request| match request {
                Request::AllocatePages { pages, .. } => Some(*pages),
                _ => None,
            })
            .collect::<Vec<usize>>(),
        vec![2560, 1, 512]
    );

    assert_eq!(firmware.table.len(), 1);
    let (identifier, page) = &firmware.table[0];
    assert_eq!(*page, 0x0800_0000);
    assert_eq!(
        &identifier[..],
        &uefi::Guid::parse_or_panic("5568e427-68fc-4f3d-ac74-ca555231cc68").to_bytes()[..]
    );
    assert_eq!(
        BootArtifactRecord::from_bytes(&firmware.memory[page]),
        Some(BootArtifactRecord { base: 0x1000_0000, size: ramdisk_len })
    );

    assert_eq!(firmware.loaded, vec![(0x2000_0000, kernel_len)]);
    assert_eq!(firmware.attached.len(), 1);
    assert_eq!(
        firmware.attached[0],
        uefi::CString16::try_from(netboot::options::KERNEL_COMMAND_LINE)
            .unwrap()
            .to_u16_slice_with_nul()
    );
    assert_eq!(count(&firmware, |r| matches!(r, Request::StartImage)), 1);
    assert_eq!(count(&firmware, |r| matches!(r, Request::InstallRecord { .. })), 1);
    assert_eq!(count(&firmware, |r| matches!(r, Request::LoadImage { .. })), 1);
    assert_eq!(count(&firmware, |r| matches!(r, Request::SetLoadOptions)), 1);
    assert_eq!(count(&firmware, |r| matches!(r, Request::Exit { .. })), 1);
    assert_eq!(firmware.asked.last(), Some(&Request::Exit { pause_seconds: 0, status: 0 }));
}

#[test]
fn a_full_run_asks_for_each_operation_in_order() {
    let mut firmware = scripted(5000, 9000);
    run(&mut firmware, FetchPolicy::default());
    let record = BootArtifactRecord { base: 0x1000_0000, size: 9000 };
    assert_eq!(
        firmware.asked,
        vec![
            Request::LocateCapability,
            Request::OpenCapability { index: 0 },
            Request::QueryStarted,
            Request::StartCapability { use_ipv6: false },
            Request::QueryAcknowledged,
            Request::ConfigureAddress { sort_offers: false },
            Request::ReadAcknowledgment,
            Request::QuerySize { artifact: Artifact::Kernel, server: SERVER },
            Request::Transfer { artifact: Artifact::Kernel, server: SERVER, len: 5000 },
            Request::QuerySize { artifact: Artifact::Ramdisk, server: SERVER },
            Request::Transfer { artifact: Artifact::Ramdisk, server: SERVER, len: 9000 },
            Request::AllocatePages { pages: 3, class: MemoryClass::LoaderData },
            Request::CopyPayload { artifact: Artifact::Ramdisk, base: 0x1000_0000, len: 9000 },
            Request::AllocatePages { pages: 1, class: MemoryClass::LoaderData },
            Request::InstallRecord { page: 0x0800_0000, record },
            Request::AllocatePages { pages: 2, class: MemoryClass::LoaderData },
            Request::CopyPayload { artifact: Artifact::Kernel, base: 0x2000_0000, len: 5000 },
            Request::LoadImage { base: 0x2000_0000, len: 5000 },
            Request::SetLoadOptions,
            Request::StartImage,
            Request::Exit { pause_seconds: 0, status: 0 },
        ]
    );
}

#[test]
fn loader_states_are_passed_in_order() {
    let mut firmware = scripted(5000, 9000);
    run(&mut firmware, FetchPolicy::default());
    let mut states = firmware.states.clone();
    states.dedup();
    assert_eq!(
        states,
        vec![
            LoaderState::Idle,
            LoaderState::RamdiskStaged,
            LoaderState::RamdiskRegistered,
            LoaderState::KernelStaged,
            LoaderState::KernelLoaded,
            LoaderState::OptionsSet,
            LoaderState::Started,
        ]
    );
}

#[test]
fn a_failed_allocation_ends_the_sequence() {
    let mut firmware = scripted(5000, 9000);
    firmware.allocations = vec![Err(uefi::Status::OUT_OF_RESOURCES.0)];
    let (sequence, pause, status) = run(&mut firmware, FetchPolicy::default());
    assert_eq!(
        sequence.outcome(),
        Some(Err(BootError::Allocation { code: uefi::Status::OUT_OF_RESOURCES.0 }))
    );
    assert_eq!((pause, status), (10, uefi::Status::OUT_OF_RESOURCES.0));
    assert!(sequence.region(Artifact::Ramdisk).is_none());
    assert_eq!(count(&firmware, |r| matches!(r, Request::CopyPayload { .. })), 0);
}

#[test]
fn a_misaligned_allocation_is_an_allocation_error() {
    let mut firmware = scripted(5000, 9000);
    firmware.allocations = vec![Ok(0x1000_0800)];
    let (sequence, _, status) = run(&mut firmware, FetchPolicy::default());
    assert_eq!(sequence.outcome(), Some(Err(BootError::unusable_allocation())));
    assert_eq!(status, uefi::Status::OUT_OF_RESOURCES.0);
    assert_eq!(count(&firmware, |r| matches!(r, Request::CopyPayload { .. })), 0);

    let mut later = scripted(5000, 9000);
    later.allocations = vec![Ok(0x1000_0000), Ok(0x7), Ok(0x2000_0000)];
    let (sequence, _, status) = run(&mut later, FetchPolicy::default());
    assert_eq!(sequence.outcome(), Some(Err(BootError::unusable_allocation())));
    assert_eq!(status, uefi::Status::OUT_OF_RESOURCES.0);
    assert_eq!(count(&later, |r| matches!(r, Request::InstallRecord { .. })), 0);
    assert_eq!(sequence.loader_state(), LoaderState::Failed);
    assert!(sequence.region(Artifact::Ramdisk).is_some());
}

#[test]
fn a_failed_kernel_allocation_keeps_the_ramdisk_registered() {
    let mut firmware = scripted(5000, 9000);
    firmware.allocations = vec![Ok(0x1000_0000), Ok(0x0800_0000), Err(9)];
    let (sequence, _, status) = run(&mut firmware, FetchPolicy::default());
    assert_eq!(sequence.outcome(), Some(Err(BootError::Allocation { code: 9 })));
    assert_eq!(status, 9);
    assert_eq!(firmware.table.len(), 1);
    assert!(sequence.region(Artifact::Kernel).is_none());
    assert_eq!(count(&firmware, |r| matches!(r, Request::LoadImage { .. })), 0);
}

#[test]
fn a_failed_installation_ends_the_sequence() {
    let mut firmware = scripted(5000, 9000);
    firmware.install = Err(uefi::Status::OUT_OF_RESOURCES.0);
    let (sequence, _, status) = run(&mut firmware, FetchPolicy::default());
    assert_eq!(
        sequence.outcome(),
        Some(Err(BootError::Status { code: uefi::Status::OUT_OF_RESOURCES.0 }))
    );
    assert_eq!(status, uefi::Status::OUT_OF_RESOURCES.0);
    assert_eq!(count(&firmware, |r| matches!(r, Request::AllocatePages { .. })), 2);
}

#[test]
fn a_malformed_image_is_a_load_error() {
    let mut firmware = scripted(5000, 9000);
    firmware.load = Err(uefi::Status::LOAD_ERROR.0);
    let (sequence, pause, status) = run(&mut firmware, FetchPolicy::default());
    assert_eq!(sequence.outcome(), Some(Err(BootError::Load { code: uefi::Status::LOAD_ERROR.0 })));
    assert_eq!((pause, status), (10, uefi::Status::LOAD_ERROR.0));
    assert_eq!(count(&firmware, |r| matches!(r, Request::SetLoadOptions)), 0);
    assert_eq!(count(&firmware, |r| matches!(r, Request::StartImage)), 0);
}

#[test]
fn failed_load_options_end_the_sequence() {
    let mut firmware = scripted(5000, 9000);
    firmware.options = Err(uefi::Status::ACCESS_DENIED.0);
    let (sequence, _, status) = run(&mut firmware, FetchPolicy::default());
    assert_eq!(
        sequence.outcome(),
        Some(Err(BootError::Status { code: uefi::Status::ACCESS_DENIED.0 }))
    );
    assert_eq!(status, uefi::Status::ACCESS_DENIED.0);
    assert_eq!(count(&firmware, |r| matches!(r, Request::StartImage)), 0);
}

#[test]
fn a_failed_start_of_the_image_is_a_start_error() {
    let mut firmware = scripted(5000, 9000);
    firmware.start_image = Err(uefi::Status::SECURITY_VIOLATION.0);
    let (sequence, pause, status) = run(&mut firmware, FetchPolicy::default());
    assert_eq!(
        sequence.outcome(),
        Some(Err(BootError::Start { code: uefi::Status::SECURITY_VIOLATION.0 }))
    );
    assert_eq!((pause, status), (10, uefi::Status::SECURITY_VIOLATION.0));
    assert_eq!(count(&firmware, |r| matches!(r, Request::StartImage)), 1);
}

#[test]
fn a_reply_that_answers_nothing_outstanding_changes_nothing() {
    let sequence = BootSequence::new(FetchPolicy::default());
    let sequence = sequence.step(Reply::Flag(true));
    assert_eq!(sequence.phase(), Phase::Locating);
    let sequence = sequence.step(Reply::Transferred(Ok(vec![1, 2, 3])));
    assert_eq!(sequence.phase(), Phase::Locating);
    let sequence = sequence.step(Reply::Copied);
    assert_eq!(sequence.pending(), Request::LocateCapability);
    let sequence = sequence.step(Reply::Located(Ok(2)));
    assert_eq!(sequence.phase(), Phase::Opening { index: 0, count: 2 });
    let sequence = sequence.step(Reply::Allocated(Ok(0x1000)));
    assert_eq!(sequence.pending(), Request::OpenCapability { index: 0 });
}

#[test]
fn an_ended_sequence_takes_no_further_reply() {
    let sequence = BootSequence::new(FetchPolicy::default());
    let sequence = sequence.step(Reply::Located(Ok(0)));
    assert_eq!(sequence.outcome(), Some(Err(BootError::NotFound)));
    let exit = sequence.pending();
    let sequence = sequence.step(Reply::Located(Ok(5)));
    assert_eq!(sequence.pending(), exit);
    let sequence = sequence.step(Reply::Completed(Ok(())));
    assert_eq!(sequence.outcome(), Some(Err(BootError::NotFound)));
    let sequence = sequence.step(Reply::Size(Ok(1)));
    assert_eq!(sequence.pending(), exit);
}

#[test]
fn an_empty_file_is_staged_in_no_pages() {
    let mut firmware = scripted(0, 0);
    let (sequence, _, _) = run(&mut firmware, FetchPolicy::default());
    assert_eq!(sequence.outcome(), Some(Ok(())));
    assert!(firmware.asked.contains(&Request::AllocatePages {
        pages: 0,
        class: MemoryClass::LoaderData
    }));
    assert_eq!(sequence.region(Artifact::Ramdisk).unwrap().len(), 0);
    assert_eq!(
        BootArtifactRecord::from_bytes(&firmware.memory[&0x0800_0000]),
        Some(BootArtifactRecord { base: 0x1000_0000, size: 0 })
    );
}
