use ftdx_1chm::ftdx10;
use ftdx_1chm::ftx1::{
    ChType, Cmd, CmdCn, CmdId, CmdMc, CmdMr, CmdMt, MemoryChannel, Mode, RxClarifierOnOff, Shift,
    Side, SqlType, ToneType, TxClarifierOnOff,
};

fn rx(bytes: &[u8]) -> heapless::Vec<u8, 255> {
    heapless::Vec::from_slice(bytes).unwrap()
}

// Reply validation: success needs all four conditions at once; any single
// violation fails.
#[test]
fn reply_validation_needs_every_condition() {
    let cmd = Cmd { code: [b'I', b'D'], read_params: 4 };
    assert!(cmd.is_reply_ok(&b"ID0840;".to_vec()).is_ok());
    // too short
    assert!(cmd.is_reply_ok(&b"I;".to_vec()).is_err());
    assert!(cmd.is_reply_ok(&b"".to_vec()).is_err());
    // first mnemonic byte missing anywhere in the buffer
    assert!(cmd.is_reply_ok(&b"XD0840;".to_vec()).is_err());
    // second mnemonic byte missing anywhere in the buffer
    assert!(cmd.is_reply_ok(&b"IX0840;".to_vec()).is_err());
    // parameter count off by one
    assert!(cmd.is_reply_ok(&b"ID840;".to_vec()).is_err());
    assert!(cmd.is_reply_ok(&b"ID08400;".to_vec()).is_err());
    // terminator missing
    assert!(cmd.is_reply_ok(&b"ID08401".to_vec()).is_err());
}

// The membership check accepts mnemonic bytes found anywhere, not only at
// the front.
#[test]
fn reply_validation_is_membership_not_position() {
    let cmd = Cmd { code: [b'I', b'D'], read_params: 4 };
    assert!(cmd.is_reply_ok(&b"DI0840;".to_vec()).is_ok());
}

#[test]
fn cmd_id_read_and_decode() {
    let id = CmdId::new();
    assert_eq!(id.read(), b"ID;".to_vec());
    assert_eq!(id.decode(&b"ID0840;".to_vec()).unwrap(), 840);
    assert!(id.decode(&b"ID08a0;".to_vec()).is_err());
    assert!(id.decode(&b"ID840;".to_vec()).is_err());
    assert!(id.validate(840).is_ok());
    assert!(id.validate(761).is_err());
}

#[test]
fn cmd_mr_read_builds_frame() {
    let mr = CmdMr::new();
    assert_eq!(mr.read(MemoryChannel::Mem(1)), b"MR00001;".to_vec());
    assert_eq!(mr.read(MemoryChannel::EmergencyChannel), b"MREMGCH;".to_vec());
}

#[test]
fn cmd_mr_decode_full_reply() {
    let mr = CmdMr::new();
    let reply = b"MR00001007000000+000000110000;".to_vec();
    let m = mr.decode(&reply).unwrap();
    assert_eq!(m.channel, MemoryChannel::Mem(1));
    assert_eq!(m.frequency_hz.to_u32(), 7_000_000);
    assert_eq!(m.clarifier_offset_hz.to_i16(), 0);
    assert_eq!(m.rx_clarifier_enabled, RxClarifierOnOff::RxClarifierOff);
    assert_eq!(m.tx_clarifier_enabled, TxClarifierOnOff::TxClarifierOff);
    assert_eq!(m.mode, Mode::Lsb);
    assert_eq!(m.ch_type, ChType::MemoryChannel);
    assert_eq!(m.sql_type, SqlType::CtcssOff);
    assert_eq!(m.shift, Shift::Simplex);
}

#[test]
fn cmd_mr_decode_rejects_bad_fields() {
    let mr = CmdMr::new();
    // out-of-band frequency
    assert!(mr.decode(&b"MR00001000000001+000000110000;".to_vec()).is_err());
    // clarifier magnitude beyond 9990
    assert!(mr.decode(&b"MR00001007000000+999900110000;".to_vec()).is_err());
    // unknown mode character
    assert!(mr.decode(&b"MR00001007000000+000000Z10000;".to_vec()).is_err());
    // wrong length
    assert!(mr.decode(&b"MR0000100700000;".to_vec()).is_err());
}

#[test]
fn cmd_mt_read_and_decode() {
    let mt = CmdMt::new();
    assert_eq!(mt.read(MemoryChannel::Mem(7)), b"MT00007;".to_vec());
    let reply = b"MT00007Hello World!;".to_vec();
    assert_eq!(mt.decode(&reply).unwrap(), b"Hello World!".to_vec());
    assert!(mt.decode(&b"MT00007Hello;".to_vec()).is_err());
}

#[test]
fn cmd_mc_read_set_decode() {
    let mc = CmdMc::new();
    assert_eq!(mc.read(), b"MC;".to_vec());
    assert_eq!(mc.set(MemoryChannel::Mem(5)), b"MC00005;".to_vec());
    let reply = mc.decode(&b"MC000005;".to_vec()).unwrap();
    assert_eq!(reply.side, Side::Main);
    assert_eq!(reply.channel, MemoryChannel::Mem(5));
    let reply = mc.decode(&b"MC1EMGCH;".to_vec()).unwrap();
    assert_eq!(reply.side, Side::Sub);
    assert_eq!(reply.channel, MemoryChannel::EmergencyChannel);
    // side byte outside 0/1
    assert!(mc.decode(&b"MC200005;".to_vec()).is_err());
}

#[test]
fn cmd_cn_read_set_decode() {
    let cn = CmdCn::new();
    assert_eq!(cn.read(), b"CN;".to_vec());
    assert_eq!(cn.set(Side::Main, ToneType::Ctcss, 12), b"CN00012;".to_vec());
    assert_eq!(cn.set(Side::Sub, ToneType::Dcs, 104), b"CN11104;".to_vec());
    let reply = cn.decode(&b"CN01123;".to_vec()).unwrap();
    assert_eq!(reply.side, Side::Main);
    assert_eq!(reply.tone_type, ToneType::Dcs);
    assert_eq!(reply.tone_code, 123);
    // 3-digit field above one byte
    assert!(cn.decode(&b"CN00999;".to_vec()).is_err());
    // tone type byte outside 0/1
    assert!(cn.decode(&b"CN02123;".to_vec()).is_err());
}

// End-to-end scenario: a Mode-set command for (Main, FM) is the frame MD04;
// and decoding that very buffer yields (Main, Fm) back.
#[test]
fn mode_set_frame_and_decode_round_trip() {
    let md = ftdx10::CmdMd::new();
    let frame = md.set(&ftdx10::Band::Main, &ftdx10::Mode::Fm);
    assert_eq!(frame.as_slice(), b"MD04;");
    let decoded = md.decode(&rx(b"MD04;")).unwrap();
    assert_eq!(decoded.0, ftdx10::Band::Main);
    assert_eq!(decoded.1, ftdx10::Mode::Fm);
}

#[test]
fn ftdx10_cmd_md_read_and_errors() {
    let md = ftdx10::CmdMd::new();
    assert_eq!(md.read(ftdx10::Band::Sub).as_slice(), b"MD1;");
    // unknown band character
    assert!(md.decode(&rx(b"MD24;")).is_err());
    // unknown mode character
    assert!(md.decode(&rx(b"MD0G;")).is_err());
    // wrong parameter count
    assert!(md.decode(&rx(b"MD004;")).is_err());
}

#[test]
fn ftdx10_cmd_id_and_validate() {
    let id = ftdx10::CmdId::new();
    assert_eq!(id.read().as_slice(), b"ID;");
    assert_eq!(id.decode(&rx(b"ID0761;")).unwrap(), 761);
    assert!(id.decode(&rx(b"ID07a1;")).is_err());
    assert!(ftdx10::CmdId::validate(761).is_ok());
    assert!(ftdx10::CmdId::validate(840).is_err());
}

#[test]
fn ftdx10_cmd_pc_set_range_and_decode() {
    let pc = ftdx10::CmdPc::new();
    assert_eq!(pc.set(5).unwrap().as_slice(), b"PC005;");
    assert_eq!(pc.set(100).unwrap().as_slice(), b"PC100;");
    assert!(pc.set(4).is_err());
    assert!(pc.set(101).is_err());
    assert_eq!(pc.read().as_slice(), b"PC;");
    assert_eq!(pc.decode(&rx(b"PC050;")).unwrap(), 50);
    assert_eq!(pc.decode(&rx(b"PC255;")).unwrap(), 255);
    // 3-digit field above one byte
    assert!(pc.decode(&rx(b"PC500;")).is_err());
    assert!(pc.decode(&rx(b"PC0x0;")).is_err());
}

#[test]
fn ftdx10_cmd_tx_set_and_decode() {
    let tx = ftdx10::CmdTx::new();
    assert_eq!(tx.set(true).unwrap().as_slice(), b"TX1;");
    assert_eq!(tx.set(false).unwrap().as_slice(), b"TX0;");
    assert_eq!(tx.read().as_slice(), b"TX;");
    assert_eq!(tx.decode(&rx(b"TX0;")).unwrap(), false);
    assert_eq!(tx.decode(&rx(b"TX1;")).unwrap(), true);
    assert_eq!(tx.decode(&rx(b"TX9;")).unwrap(), true);
    assert!(tx.decode(&rx(b"TX12;")).is_err());
}

#[test]
fn ftdx10_reply_validation_needs_every_condition() {
    let cmd = ftdx10::Cmd { code: [b'T', b'X'], read_params: 1 };
    assert!(cmd.is_reply_ok(&rx(b"TX1;")).is_ok());
    assert!(cmd.is_reply_ok(&rx(b"T;")).is_err());
    assert!(cmd.is_reply_ok(&rx(b"AX1;")).is_err());
    assert!(cmd.is_reply_ok(&rx(b"TA1;")).is_err());
    assert!(cmd.is_reply_ok(&rx(b"TX11;")).is_err());
    assert!(cmd.is_reply_ok(&rx(b"TX11")).is_err());
}
