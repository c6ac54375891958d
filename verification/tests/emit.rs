use sleigh_lift::emit::{AssemblyEmit, PCodeEmit};
use sleigh_lift::model::{AddrSpace, Opcode, SpaceType, VarnodeData};

fn register(offset: u64, size: u32) -> VarnodeData {
    VarnodeData {
        space: AddrSpace { name: "register".to_string(), ty: SpaceType::Processor },
        offset,
        size,
    }
}

#[test]
fn pcode_sink_keeps_callback_order() {
    let mut sink = PCodeEmit::new();
    assert!(sink.pcodes.is_empty());
    sink.dump(0x1000, Opcode { code: 1 }, Some(register(0, 4)), vec![register(8, 4)]);
    sink.dump(0x1000, Opcode { code: 19 }, None, vec![register(0, 4), register(8, 4)]);
    sink.dump(0x1002, Opcode { code: 4 }, None, vec![]);
    assert_eq!(sink.pcodes.len(), 3);
    assert_eq!(sink.pcodes[0].address, 0x1000);
    assert_eq!(sink.pcodes[0].opcode, Opcode { code: 1 });
    assert_eq!(sink.pcodes[0].vars.len(), 1);
    assert!(sink.pcodes[0].outvar.is_some());
    assert_eq!(sink.pcodes[1].opcode, Opcode { code: 19 });
    assert_eq!(sink.pcodes[1].vars.len(), 2);
    assert!(sink.pcodes[1].outvar.is_none());
    assert_eq!(sink.pcodes[2].address, 0x1002);
}

#[test]
fn pcode_sink_copies_operand_fields() {
    let mut sink = PCodeEmit::new();
    sink.dump(0x40, Opcode { code: 2 }, None, vec![register(16, 8)]);
    let var = &sink.pcodes[0].vars[0];
    assert_eq!(var.space.name, "register");
    assert_eq!(var.space.ty, SpaceType::Processor);
    assert_eq!(var.offset, 16);
    assert_eq!(var.size, 8);
}

#[test]
fn assembly_sink_keeps_callback_order() {
    let mut sink = AssemblyEmit::new();
    assert!(sink.insts.is_empty());
    sink.dump(0x1000, "ADD".to_string(), "EAX,EBX".to_string());
    sink.dump(0x1002, "RET".to_string(), "".to_string());
    assert_eq!(sink.insts.len(), 2);
    assert_eq!(sink.insts[0].address, 0x1000);
    assert_eq!(sink.insts[0].mnemonic, "ADD");
    assert_eq!(sink.insts[0].body, "EAX,EBX");
    assert_eq!(sink.insts[1].address, 0x1002);
    assert_eq!(sink.insts[1].mnemonic, "RET");
}

#[test]
fn space_type_codes_round_trip() {
    let all = [
        (0, SpaceType::Constant),
        (1, SpaceType::Processor),
        (2, SpaceType::SpaceBase),
        (3, SpaceType::Internal),
        (4, SpaceType::Fspec),
        (5, SpaceType::Iop),
        (6, SpaceType::Join),
    ];
    for (code, ty) in all {
        let decoded = SpaceType::from_code(code).unwrap();
        assert_eq!(decoded, ty);
        assert_eq!(decoded.code(), code);
    }
    assert!(SpaceType::from_code(7).is_none());
    assert!(SpaceType::from_code(u32::MAX).is_none());
}
