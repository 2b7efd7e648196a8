use peace_jit::abi::Linkage;
use peace_jit::callconv::{compute_arguments, compute_stack_locations, CallConvResult};
use peace_jit::dseg::DSeg;
use peace_jit::emit::Membase;
use peace_jit::function::{CallFixup, Function};
use peace_jit::module::{patch_call_site, Memory, Module};
use peace_jit::registers::{Reg, Register, XMMRegister};
use peace_jit::sink::Sink;
use peace_jit::types::{CondCode, Kind, MachineMode};
use peace_jit::util::{align, align_up, copy_vec, fits_i32, fits_i8, is_power_of_two};

#[test]
fn align_rounds_up() {
    assert_eq!(align(0, 8), 0);
    assert_eq!(align(1, 8), 8);
    assert_eq!(align(12, 8), 16);
    assert_eq!(align(16, 16), 16);
    assert_eq!(align(5, 0), 5);
}

#[test]
fn align_up_power_of_two() {
    assert_eq!(align_up(0, 16), 0);
    assert_eq!(align_up(1, 16), 16);
    assert_eq!(align_up(33, 16), 48);
}

#[test]
fn immediate_width_tests() {
    assert!(fits_i8(127));
    assert!(fits_i8(-128));
    assert!(!fits_i8(128));
    assert!(!fits_i8(-129));
    assert!(fits_i32(0x7fff_ffff));
    assert!(!fits_i32(0x8000_0000i64));
    assert!(fits_i32(-0x8000_0000i64));
}

#[test]
fn power_of_two_scan() {
    assert_eq!(is_power_of_two(1), Some(0));
    assert_eq!(is_power_of_two(8), Some(3));
    assert_eq!(is_power_of_two(12), None);
    assert_eq!(is_power_of_two(0), None);
}

#[test]
fn copy_vec_copies() {
    let v = vec![1u8, 2, 3];
    assert_eq!(copy_vec(&v), v);
}

#[test]
fn dseg_layout_and_image() {
    let mut d = DSeg::new();
    let d1 = d.add_int(7);
    assert_eq!(d1, 4);
    let d2 = d.add_double(1.0f64.to_bits());
    assert_eq!(d2, 16);
    assert_eq!(d.size(), 16);
    let img = d.finish();
    assert_eq!(img.len(), 16);
    // The int sits 4 bytes before the end, the double 16 bytes before it.
    assert_eq!(&img[12..16], &[7, 0, 0, 0]);
    assert_eq!(&img[0..8], &1.0f64.to_bits().to_le_bytes());
}

#[test]
fn dseg_pointer_reuse() {
    let mut d = DSeg::new();
    let a = d.add_addr(0x1234);
    let b = d.add_addr_reuse(0x1234);
    assert_eq!(a, b);
    let c = d.add_addr_reuse(0x9999);
    assert_ne!(a, c);
}

#[test]
fn forward_jump_fixup() {
    let mut s = Sink::new();
    let l = s.create_label();
    s.emit_jmp(l);
    s.put(0x90);
    s.bind_label(l);
    s.fix_forward_jumps();
    // jmp rel32 to offset 6 from a slot at offset 1: rel32 = 6 - 1 - 4 = 1.
    assert_eq!(s.data().as_slice(), &[0xe9, 1, 0, 0, 0, 0x90]);
}

#[test]
fn backward_jump_immediate() {
    let mut s = Sink::new();
    let l = s.create_label();
    s.bind_label(l);
    s.emit_jmp(l);
    // jmp rel32 back to offset 0 from a slot at offset 1: rel32 = -5.
    assert_eq!(s.data().as_slice(), &[0xe9, 0xfb, 0xff, 0xff, 0xff]);
}

#[test]
fn prologue_bytes() {
    let f = Function::new("f", Linkage::Local);
    assert_eq!(f.sink.data.as_slice(), &[0x55, 0x48, 0x89, 0xe5]);
}

#[test]
fn mov_and_alu_encodings() {
    let mut s = Sink::new();
    s.emit_mov_reg_reg(1, Register::RSP, Register::RBP);
    s.emit_add_reg_reg(1, Register::RAX, Register::RCX);
    s.emit_push_reg(Register::R12);
    s.emit_pop_reg(Register::R12);
    s.ret();
    assert_eq!(
        s.data().as_slice(),
        &[0x48, 0x89, 0xe5, 0x48, 0x01, 0xc1, 0x41, 0x54, 0x41, 0x5c, 0xc3]
    );
}

#[test]
fn immediate_encodings() {
    let mut s = Sink::new();
    s.emit_movl_imm_reg(42, Register::RCX);
    s.emit_movq_imm64_reg(0x1122334455667788, Register::RAX);
    assert_eq!(
        s.data().as_slice(),
        &[
            0xb9, 0x2a, 0, 0, 0, //
            0x48, 0xb8, 0x88, 0x77, 0x66, 0x55, 0x44, 0x33, 0x22, 0x11,
        ]
    );
}

#[test]
fn local_store_load_encodings() {
    let mut s = Sink::new();
    s.store_mem(MachineMode::Int64, Membase::Local(-8), Reg::Gpr(Register::RAX));
    s.load_mem(MachineMode::Int64, Reg::Gpr(Register::RAX), Membase::Local(-8));
    assert_eq!(
        s.data().as_slice(),
        &[0x48, 0x89, 0x45, 0xf8, 0x48, 0x8b, 0x45, 0xf8]
    );
}

#[test]
fn sse_encodings() {
    let mut s = Sink::new();
    s.movsd(XMMRegister::XMM0, XMMRegister::XMM1);
    s.addsd(XMMRegister::XMM2, XMMRegister::XMM3);
    assert_eq!(
        s.data().as_slice(),
        &[0xf2, 0x0f, 0x10, 0xc1, 0xf2, 0x0f, 0x58, 0xd3]
    );
}

#[test]
fn float_constant_pool() {
    let mut s = Sink::new();
    s.load_float(MachineMode::Float64, XMMRegister::XMM0, 2.5f64.to_bits());
    // One pooled double at displacement 8; movsd xmm0, [rip - 16].
    assert_eq!(s.dseg.size, 8);
    assert_eq!(
        s.data().as_slice(),
        &[0xf2, 0x0f, 0x10, 0x05, 0xf0, 0xff, 0xff, 0xff]
    );
}

#[test]
fn abi_argument_placement() {
    let kinds = vec![
        Kind::Int64,
        Kind::Float64,
        Kind::Int32,
        Kind::Int64,
        Kind::Int64,
        Kind::Int64,
        Kind::Int64,
        Kind::Int64,
    ];
    let r = compute_arguments(&kinds);
    assert_eq!(r[0], CallConvResult::GPR(Register::RDI));
    assert_eq!(r[1], CallConvResult::FPR(XMMRegister::XMM0));
    assert_eq!(r[2], CallConvResult::GPR(Register::RSI));
    assert_eq!(r[3], CallConvResult::GPR(Register::RDX));
    assert_eq!(r[4], CallConvResult::GPR(Register::RCX));
    assert_eq!(r[5], CallConvResult::GPR(Register::R8));
    assert_eq!(r[6], CallConvResult::GPR(Register::R9));
    assert_eq!(r[7], CallConvResult::Stack);
}

#[test]
fn stack_argument_area_is_aligned() {
    let (size, offsets) = compute_stack_locations(&vec![8, 8]);
    assert_eq!(size, 16);
    assert_eq!(offsets, vec![0, 8]);
    let (size1, offsets1) = compute_stack_locations(&vec![8]);
    assert_eq!(size1 % 16, 0);
    assert_eq!(offsets1, vec![0]);
}

#[test]
fn patch_call_site_writes_little_endian() {
    let mut img = vec![0u8; 12];
    patch_call_site(&mut img, 2, 0x0102030405060708);
    assert_eq!(img[0..2], [0, 0]);
    assert_eq!(img[2..10], [8, 7, 6, 5, 4, 3, 2, 1]);
    assert_eq!(img[10..12], [0, 0]);
}

#[test]
fn memory_wraps_address() {
    let m = Memory::new(0x4000);
    assert_eq!(m.start(), 0x4000);
    assert_eq!(m.end(), 0x4000);
    assert_eq!(m.ptr(), 0x4000);
    assert_eq!(m.size(), 0xdead);
}

#[test]
fn duplicate_function_rejected() {
    let mut m = Module::new();
    assert!(m.add_function(Function::new("f", Linkage::Local)).is_ok());
    let r = m.add_function(Function::new("f", Linkage::Local));
    assert_eq!(r, Err(String::from("f")));
}

#[test]
fn relocation_patches_callee_entry() {
    let mut m = Module::new();

    let mut callee = Function::new("square", Linkage::Local);
    callee.sink.emit_epilog();
    callee.sink.ret();
    m.add_function(callee).unwrap();

    let mut main = Function::new("main", Linkage::Local);
    let pos;
    {
        main.sink.emit_movq_imm64_reg(0, Register::RAX);
        pos = main.sink.size() - 8;
        main.fixups.push(CallFixup {
            name: String::from("square"),
            pos,
        });
        main.sink.emit_call_reg(Register::RAX);
        main.sink.emit_epilog();
        main.sink.ret();
    }
    m.add_function(main).unwrap();

    let bases = vec![0x10000u64, 0x20000u64];
    assert!(m.finish(&bases).is_ok());

    // Both data segments are empty, so each entry is its base.
    let sq = m.get_finalized_function(&String::from("square")).unwrap();
    assert_eq!(sq.0, 0x10000);
    let mn = m.get_finalized_function(&String::from("main")).unwrap();
    assert_eq!(mn.0, 0x20000);

    // The eight bytes of the movabs immediate inside main now hold the
    // little-endian entry address of square.
    let (entry, img) = m.get_image(&String::from("main")).unwrap();
    assert_eq!(entry, 0);
    assert_eq!(&img[pos..pos + 8], &0x10000u64.to_le_bytes());
}

#[test]
fn finalized_lookup_is_idempotent() {
    let mut m = Module::new();
    let mut f = Function::new("f", Linkage::Local);
    f.sink.emit_epilog();
    f.sink.ret();
    m.add_function(f).unwrap();
    m.add_function(Function::new("puts", Linkage::Extern(0xbeef))).unwrap();
    assert!(m.finish(&vec![0x3000, 0]).is_ok());
    let a = m.get_finalized_function(&String::from("f"));
    let b = m.get_finalized_function(&String::from("f"));
    assert_eq!(a, b);
    let p = m.get_finalized_function(&String::from("puts")).unwrap();
    assert_eq!(p.0, 0xbeef);
}

#[test]
fn unresolved_callee_reported() {
    let mut m = Module::new();
    let mut f = Function::new("f", Linkage::Local);
    f.sink.emit_movq_imm64_reg(0, Register::RAX);
    let pos = f.sink.size() - 8;
    f.fixups.push(CallFixup {
        name: String::from("missing"),
        pos,
    });
    f.sink.emit_call_reg(Register::RAX);
    f.sink.ret();
    m.add_function(f).unwrap();
    let r = m.finish(&vec![0x5000]);
    assert_eq!(r, Err(String::from("missing")));
}

#[test]
fn conditional_jump_uses_condition_nibble() {
    let mut s = Sink::new();
    let l = s.create_label();
    s.bind_label(l);
    s.emit_jcc(CondCode::Less, l);
    // jl rel32 back to offset 0 from a slot at offset 2: rel32 = -6.
    assert_eq!(s.data().as_slice(), &[0x0f, 0x8c, 0xfa, 0xff, 0xff, 0xff]);
}

#[test]
fn register_bit_split() {
    assert_eq!(Register::R9.msb(), 1);
    assert_eq!(Register::R9.and7(), 1);
    assert_eq!(Register::RBP.msb(), 0);
    assert_eq!(Register::RBP.and7(), 5);
    assert_eq!(XMMRegister::XMM12.msb(), 1);
    assert_eq!(XMMRegister::XMM12.and7(), 4);
}

#[test]
fn kinds_and_modes() {
    assert_eq!(MachineMode::Int64.size(), 8);
    assert_eq!(MachineMode::Float32.size(), 4);
    assert!(Kind::Pointer.is_int());
    assert!(!Kind::Float64.is_int());
    assert_eq!(Kind::Bool32.to_machine(), MachineMode::Int32);
}

#[test]
fn builder_add_two_constants() {
    let mut f = Function::new("add2", Linkage::Local);
    let a = f.iconst(Kind::Int32, 40);
    let b = f.iconst(Kind::Int32, 2);
    let r = f.iadd(a, b);
    // Both constants land in the first two callee-saved pool registers and
    // the sum flows through the scratch pair.
    assert_eq!(
        f.sink.data.as_slice(),
        &[
            0x55, 0x48, 0x89, 0xe5, // push rbp; mov rbp, rsp
            0x41, 0xbc, 40, 0, 0, 0, // mov r12d, 40
            0x41, 0xbd, 2, 0, 0, 0, // mov r13d, 2
            0x45, 0x89, 0xe2, // mov r10d, r12d
            0x45, 0x89, 0xeb, // mov r11d, r13d
            0x45, 0x01, 0xd3, // add r11d, r10d
            0x45, 0x89, 0xdc, // mov r12d, r11d
        ]
    );
    // The operands were consumed; the result is live.
    assert!(f.values[a.0 as usize].is_none());
    assert!(f.values[b.0 as usize].is_none());
    assert!(f.values[r.0 as usize].is_some());
}

#[test]
fn builder_division_truncates_via_idiv_sequence() {
    let mut f = Function::new("div", Linkage::Local);
    let a = f.iconst(Kind::Int32, 7);
    let b = f.iconst(Kind::Int32, 2);
    let q = f.idiv(a, b);
    let code = f.sink.data.as_slice();
    // The tail of the lowering: mov eax, r10d ; cdq ; idiv r11d ; and the
    // result moved out of RAX into the reallocated pool register.
    assert_eq!(
        &code[code.len() - 10..],
        &[0x44, 0x89, 0xd0, 0x99, 0x41, 0xf7, 0xfb, 0x41, 0x89, 0xc4]
    );
    assert!(f.values[q.0 as usize].is_some());
}

#[test]
fn ret_moves_result_into_rax() {
    let mut f = Function::new("r", Linkage::Local);
    let a = f.iconst(Kind::Int32, 5);
    f.ret(a);
    let code = f.sink.data.as_slice();
    // The tail: mov eax, r12d ; pop rbp ; ret.
    assert_eq!(&code[code.len() - 5..], &[0x44, 0x89, 0xe0, 0x5d, 0xc3]);
}

#[test]
fn variables_round_trip_through_their_slot() {
    let mut f = Function::new("v", Linkage::Local);
    let var = f.declare_variable(0, Kind::Int32);
    let c = f.iconst(Kind::Int32, 7);
    f.def_var(var, c);
    let u = f.use_var(var);
    assert!(f.values[c.0 as usize].is_none());
    assert!(f.values[u.0 as usize].is_some());
    let code = f.sink.data.as_slice();
    // def_var: mov [rbp-4], r12d. use_var: mov r10d, [rbp-4]; mov r12d, r10d.
    assert_eq!(
        &code[code.len() - 11..],
        &[0x44, 0x89, 0x65, 0xfc, 0x44, 0x8b, 0x55, 0xfc, 0x45, 0x89, 0xd4]
    );
}

#[test]
fn jump_zero_tests_and_branches() {
    let mut f = Function::new("j", Linkage::Local);
    let c = f.iconst(Kind::Int32, 0);
    let l = f.new_label();
    f.jump_zero(c, l);
    f.label_here(l);
    f.sink.fix_forward_jumps();
    let code = f.sink.data.as_slice();
    // xor r12, r12 ; mov r10d, r12d ; test r10d, r10d ; jz +0.
    assert_eq!(
        &code[4..],
        &[
            0x4d, 0x31, 0xe4, //
            0x45, 0x89, 0xe2, //
            0x45, 0x85, 0xd2, //
            0x0f, 0x84, 0, 0, 0, 0,
        ]
    );
}

#[test]
fn import_resolves_to_host_address() {
    let mut m = Module::new();
    m.add_function(Function::new("puts", Linkage::Import(String::from("puts"))))
        .unwrap();
    assert!(m.resolve_import(&String::from("puts"), 0xbeef));
    assert!(m.finish(&vec![0]).is_ok());
    let p = m.get_finalized_function(&String::from("puts")).unwrap();
    assert_eq!(p.0, 0xbeef);
}

#[test]
fn rbp_based_indexed_store_takes_explicit_displacement() {
    let mut s = Sink::new();
    s.emit_mov_membaseindex_reg(
        MachineMode::Int32,
        Register::RBP,
        Register::RCX,
        4,
        0,
        Register::RAX,
    );
    // A zero displacement over an RBP base still takes the disp8 form,
    // since SIB base 101 with mod 00 would mean "no base".
    assert_eq!(s.data().as_slice(), &[0x8b, 0x44, 0x8d, 0x00]);
}
