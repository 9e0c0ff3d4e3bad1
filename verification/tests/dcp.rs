use usbarmory::dcp::aes128::{Aes128, HardwareKey};
use usbarmory::dcp::sha256::{digest_from_engine, final_control, update_control, Sha256, MAX_COUNT};
use usbarmory::dcp::{
    check_dcp, operation_finished, stat_has_error, ChannelClaims, CipherMode, CipherSelect, Cmd,
    Context, Control0, Control1, DcpError, HashSelect, KeySelect, SUPPORTED_VERSION,
};

#[test]
fn control0_flags() {
    let mut c = Control0::new();
    c.decr_semaphore(true);
    c.enable_cipher(true);
    c.cipher_encrypt(true);
    assert_eq!(c.bits(), 0x2 | 0x20 | 0x100);
    c.cipher_encrypt(false);
    assert_eq!(c.bits(), 0x22);
    c.tag(0xAB);
    assert_eq!(c.bits(), 0xAB00_0022);
    c.tag(0x01);
    assert_eq!(c.bits(), 0x0100_0022);
    let mut d = Control0::new();
    d.output_wordswap(true);
    d.constant_fill(true);
    d.interrupt(true);
    assert_eq!(d.bits(), (1 << 23) | (1 << 16) | 1);
}

#[test]
fn control1_fields() {
    let mut c = Control1::new();
    c.cipher_select(CipherSelect::Aes128);
    c.cipher_mode(CipherMode::Cbc);
    c.key_select(KeySelect::OtpKey);
    assert_eq!(c.bits(), (1 << 4) | (0xff << 8));
    c.key_select(KeySelect::UniqueKey);
    assert_eq!(c.bits(), (1 << 4) | (0xfe << 8));
    c.cipher_mode(CipherMode::Ecb);
    c.hash_select(HashSelect::Sha256);
    assert_eq!(c.bits(), (0xfe << 8) | (2 << 16));
}

#[test]
fn command_descriptor_starts_cleared() {
    let cmd = Cmd::new();
    assert_eq!(cmd.next_cmd_addr, 0);
    assert_eq!(cmd.control0.bits(), 0);
    assert_eq!(cmd.control1.bits(), 0);
    assert_eq!(cmd.buffer_size, 0);
    assert_eq!(cmd.status, 0);
    let _ctx = Context::empty();
}

#[test]
fn dcp_checks() {
    assert!(check_dcp(SUPPORTED_VERSION, 1 | (1 << 18)).is_ok());
    assert!(check_dcp(0, 1 | (1 << 18)) == Err(DcpError::UnsupportedVersion));
    assert!(check_dcp(SUPPORTED_VERSION, 1 << 18) == Err(DcpError::NoAes128));
    assert!(check_dcp(SUPPORTED_VERSION, 1) == Err(DcpError::NoSha256));
    assert!(operation_finished(1, 0));
    assert!(operation_finished(0, 1 << 16));
    assert!(!operation_finished(0, 1 << 1));
    assert!(stat_has_error(1 << 2));
    assert!(!stat_has_error(1 << 1));
}

#[test]
fn aes_hardware_channel_is_exclusive() {
    let mut claims = ChannelClaims::new();
    let a = Aes128::new_otp(&mut claims).unwrap();
    assert!(a.key_select() == KeySelect::OtpKey);
    assert!(Aes128::new_unique(&mut claims).is_none());
    assert!(Aes128::new_otp(&mut claims).is_none());
    let ram = Aes128::new_ram(&mut claims).unwrap();
    assert!(ram.key_select() == KeySelect::Key0);
    assert!(Aes128::new_ram(&mut claims).is_none());
    a.release(&mut claims);
    assert!(claims.aes_ram);
    let u = Aes128::new_unique(&mut claims).unwrap();
    assert!(u.key_select() == KeySelect::UniqueKey);
    ram.release(&mut claims);
    assert!(!claims.aes_ram);
    assert!(claims.aes_hw);
}

#[test]
fn aes_control_words() {
    let mut claims = ChannelClaims::new();
    let otp = Aes128::new_otp(&mut claims).unwrap();
    let (c0, c1) = otp.xcrypt_control(true);
    assert_eq!(c0.bits(), 0x2 | 0x20 | 0x100 | 0x400);
    assert_eq!(c1.bits(), 0xff << 8);
    let ram = Aes128::new_ram(&mut claims).unwrap();
    let (c0, c1) = ram.xcrypt_control(false);
    assert_eq!(c0.bits(), 0x22);
    assert_eq!(c1.bits(), 0);
    assert!(KeySelect::from(HardwareKey::Unique) == KeySelect::UniqueKey);
    assert!(KeySelect::from(HardwareKey::Otp) == KeySelect::OtpKey);
    assert_eq!(Aes128::ram_key_slot(), 1 << 6);
}

#[test]
fn aes_key_words_little_endian() {
    let key: [u8; 16] = [1, 2, 3, 4, 5, 6, 7, 8, 9, 10, 11, 12, 13, 14, 15, 16];
    let w = Aes128::key_words(&key);
    assert_eq!(w, [0x0403_0201, 0x0807_0605, 0x0c0b_0a09, 0x100f_0e0d]);
}

fn concat(jobs: &[usbarmory::dcp::sha256::HashJob]) -> Vec<u8> {
    let mut v = Vec::new();
    for j in jobs {
        v.extend_from_slice(&j.bytes);
    }
    v
}

#[test]
fn sha_buffers_partial_blocks() {
    let mut claims = ChannelClaims::new();
    let mut h = Sha256::take(&mut claims).unwrap();
    assert!(Sha256::take(&mut claims).is_none());
    let jobs = h.input_slice(b"abc");
    assert!(jobs.is_empty());
    let tail = h.final_job();
    assert_eq!(tail.bytes, b"abc".to_vec());
    assert!(tail.init);
    h.release(&mut claims);
    assert!(Sha256::take(&mut claims).is_some());
}

#[test]
fn sha_hands_out_whole_blocks() {
    let mut claims = ChannelClaims::new();
    let mut h = Sha256::take(&mut claims).unwrap();
    let input: Vec<u8> = (0..150u32).map(|i| i as u8).collect();
    let jobs = h.input_slice(&input[..10]);
    assert!(jobs.is_empty());
    let jobs2 = h.input_slice(&input[10..]);
    // 10 buffered + 140 new = 150: the first block completes the buffer, then
    // one more whole block, and 22 bytes stay buffered
    assert_eq!(jobs2.len(), 2);
    assert!(jobs2[0].init);
    assert!(!jobs2[1].init);
    assert_eq!(jobs2[0].bytes.len(), 64);
    assert_eq!(jobs2[1].bytes.len(), 64);
    let tail = h.final_job();
    assert!(!tail.init);
    assert_eq!(tail.bytes.len(), 22);
    let mut all = concat(&jobs2);
    all.extend_from_slice(&tail.bytes);
    assert_eq!(all, input);
    assert_eq!(h.count(), 150);
    // the first job completes the buffered bytes to a block
    assert_eq!(jobs2[0].bytes, input[..64].to_vec());
}

#[test]
fn sha_large_input_in_one_job() {
    let mut claims = ChannelClaims::new();
    let mut h = Sha256::take(&mut claims).unwrap();
    let input = vec![7u8; 64 * 5 + 3];
    let jobs = h.input_slice(&input);
    assert_eq!(jobs.len(), 1);
    assert_eq!(jobs[0].bytes.len(), 320);
    assert!(jobs[0].init);
    assert_eq!(h.final_job().bytes.len(), 3);
    let more = h.input_slice(&vec![1u8; 61]);
    assert_eq!(more.len(), 1);
    assert!(!more[0].init);
    assert_eq!(h.final_job().bytes.len(), 0);
    assert_eq!(h.count(), 64 * 5 + 3 + 61);
    h.reset();
    assert_eq!(h.count(), 0);
    let t = h.final_job();
    assert!(t.init);
    assert!(t.bytes.is_empty());
    assert!(h.input_slice(&[]).is_empty());
}

#[test]
fn sha_control_words() {
    let (c0, c1) = update_control(true);
    assert_eq!(c0.bits(), 0x2 | 0x40 | 0x1000);
    assert_eq!(c1.bits(), 2 << 16);
    let (c0, _) = update_control(false);
    assert_eq!(c0.bits(), 0x42);
    let (c0, _) = final_control(false);
    assert_eq!(c0.bits(), 0x42 | 0x2000);
    let (c0, _) = final_control(true);
    assert_eq!(c0.bits(), 0x42 | 0x1000 | 0x2000);
    assert_eq!(MAX_COUNT, 512 * 1024 * 1024);
}

#[test]
fn digest_reversed() {
    let mut out = [0u8; 32];
    for i in 0..32 {
        out[i] = i as u8;
    }
    let d = digest_from_engine(out);
    for i in 0..32 {
        assert_eq!(d[i], (31 - i) as u8);
    }
}
