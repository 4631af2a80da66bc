use uhyve::catalog::{code, request_number, request_number_for, ControlRequestCode, Direction, NameIOCTL, Payload, KVMIO};

fn entry(op: NameIOCTL) -> (u8, u8, Direction, Option<Payload>) {
    let c = code(op);
    (c.class, c.number, c.direction, c.payload)
}

#[test]
fn catalog_matches_the_kernel_abi() {
    assert_eq!(entry(NameIOCTL::GetVersion), (KVMIO, 0x00, Direction::NoData, None));
    assert_eq!(entry(NameIOCTL::CreateVm), (KVMIO, 0x01, Direction::NoData, None));
    assert_eq!(
        entry(NameIOCTL::GetMsrIndexList),
        (KVMIO, 0x02, Direction::Read, Some(Payload::MsrList))
    );
    assert_eq!(entry(NameIOCTL::CheckExtension), (KVMIO, 0x03, Direction::NoData, None));
    assert_eq!(entry(NameIOCTL::GetVcpuMmapSize), (KVMIO, 0x04, Direction::NoData, None));
    assert_eq!(
        entry(NameIOCTL::GetSupportedCpuid),
        (KVMIO, 0x05, Direction::ReadWrite, Some(Payload::Cpuid2Header))
    );
    assert_eq!(
        entry(NameIOCTL::GetEmulatedCpuid),
        (KVMIO, 0x09, Direction::Read, Some(Payload::Cpuid2Header))
    );
    assert_eq!(
        entry(NameIOCTL::SetCpuid2),
        (KVMIO, 0x90, Direction::Write, Some(Payload::Cpuid2Header))
    );
    assert_eq!(entry(NameIOCTL::CreateVcpu), (KVMIO, 0x41, Direction::NoData, None));
    assert_eq!(
        entry(NameIOCTL::GetDirtyLog),
        (KVMIO, 0x42, Direction::Read, Some(Payload::DirtyLog))
    );
    assert_eq!(
        entry(NameIOCTL::SetMemoryAlias),
        (KVMIO, 0x43, Direction::Write, Some(Payload::MemoryAlias))
    );
    assert_eq!(entry(NameIOCTL::SetNrMmuPages), (KVMIO, 0x44, Direction::NoData, None));
    assert_eq!(entry(NameIOCTL::GetNrMmuPages), (KVMIO, 0x45, Direction::NoData, None));
    assert_eq!(
        entry(NameIOCTL::SetMemoryRegion),
        (KVMIO, 0x40, Direction::Write, Some(Payload::MemoryRegion))
    );
    assert_eq!(
        entry(NameIOCTL::SetUserMemoryRegion),
        (KVMIO, 0x46, Direction::Write, Some(Payload::UserspaceMemoryRegion))
    );
    assert_eq!(entry(NameIOCTL::CreateIrqchip), (KVMIO, 0x60, Direction::NoData, None));
    assert_eq!(entry(NameIOCTL::Run), (KVMIO, 0x80, Direction::NoData, None));
    assert_eq!(entry(NameIOCTL::GetRegs), (KVMIO, 0x81, Direction::Read, Some(Payload::Regs)));
    assert_eq!(entry(NameIOCTL::SetRegs), (KVMIO, 0x82, Direction::Write, Some(Payload::Regs)));
    assert_eq!(entry(NameIOCTL::GetSregs), (KVMIO, 0x83, Direction::Read, Some(Payload::Sregs)));
    assert_eq!(entry(NameIOCTL::SetSregs), (KVMIO, 0x84, Direction::Write, Some(Payload::Sregs)));
}

#[test]
fn catalog_is_stable_across_repeated_lookups() {
    let ops = [
        NameIOCTL::GetVersion,
        NameIOCTL::CreateVm,
        NameIOCTL::GetMsrIndexList,
        NameIOCTL::CheckExtension,
        NameIOCTL::GetVcpuMmapSize,
        NameIOCTL::GetSupportedCpuid,
        NameIOCTL::GetEmulatedCpuid,
        NameIOCTL::SetCpuid2,
        NameIOCTL::CreateVcpu,
        NameIOCTL::GetDirtyLog,
        NameIOCTL::SetMemoryAlias,
        NameIOCTL::SetNrMmuPages,
        NameIOCTL::GetNrMmuPages,
        NameIOCTL::SetMemoryRegion,
        NameIOCTL::SetUserMemoryRegion,
        NameIOCTL::CreateIrqchip,
        NameIOCTL::Run,
        NameIOCTL::GetRegs,
        NameIOCTL::SetRegs,
        NameIOCTL::GetSregs,
        NameIOCTL::SetSregs,
    ];
    for op in ops {
        let first = code(op);
        let second = code(op);
        let third = code(op);
        assert_eq!(first, second);
        assert_eq!(second, third);
    }
}

#[test]
fn request_numbers_match_the_kernel_abi() {
    // No-payload requests pack to class and number alone.
    assert_eq!(request_number_for(NameIOCTL::GetVersion, 0), 0xAE00);
    assert_eq!(request_number_for(NameIOCTL::CreateVm, 0), 0xAE01);
    assert_eq!(request_number_for(NameIOCTL::CheckExtension, 0), 0xAE03);
    assert_eq!(request_number_for(NameIOCTL::CreateVcpu, 0), 0xAE41);
    assert_eq!(request_number_for(NameIOCTL::Run, 0), 0xAE80);
    // Payload-carrying requests pack the direction bits and the byte size of
    // the payload structure; the sizes here are the x86-64 kernel's.
    assert_eq!(request_number_for(NameIOCTL::GetRegs, 144), 0x8090_AE81);
    assert_eq!(request_number_for(NameIOCTL::SetRegs, 144), 0x4090_AE82);
    assert_eq!(request_number_for(NameIOCTL::GetSregs, 312), 0x8138_AE83);
    assert_eq!(request_number_for(NameIOCTL::SetSregs, 312), 0x4138_AE84);
    assert_eq!(request_number_for(NameIOCTL::SetUserMemoryRegion, 32), 0x4020_AE46);
    assert_eq!(request_number_for(NameIOCTL::GetDirtyLog, 16), 0x8010_AE42);
    assert_eq!(request_number_for(NameIOCTL::GetSupportedCpuid, 8), 0xC008_AE05);
}

#[test]
fn request_number_packs_each_field_into_its_bits() {
    let c = ControlRequestCode {
        class: 0xAE,
        number: 0x81,
        direction: Direction::ReadWrite,
        payload: Some(Payload::Regs),
    };
    let r = request_number(&c, 0x3FFF);
    assert_eq!(r >> 30, 3);
    assert_eq!((r >> 16) & 0x3FFF, 0x3FFF);
    assert_eq!((r >> 8) & 0xFF, 0xAE);
    assert_eq!(r & 0xFF, 0x81);
}
