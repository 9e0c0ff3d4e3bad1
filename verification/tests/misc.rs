use usbarmory::led::{Leds, BLUE, WHITE};
use usbarmory::rng::{fifo_level, fifo_step, seed_done, words_to_read, FifoStep, Stats};
use usbarmory::rtc::Rtc;
use usbarmory::serial::{Event, Serial};
use usbarmory::time::{settled_counter, ticks_to_secs_nanos, Instant};
use usbarmory::usbd::dqh::{dQH, Caps};
use usbarmory::usbd::dtd::dTD;
use usbarmory::usbd::token::Token;
use usbarmory::usbd::util::{Ref, Reserved};
use usbarmory::usbd::{device_usbmode, in_device_mode, in_endpoint_bit, interrupts_pending, irqs_masked};
use usbarmory::util::{handle_state_code, round_down, take_step, wait_step, HandleState, TakeStep, WaitStep};
use usbarmory::dcp::first_init;
use usbarmory::{reset_wcr, CPU_FREQUENCY};
use std::time::Duration;

#[test]
fn round_down_values() {
    assert_eq!(round_down(130, 64), 128);
    assert_eq!(round_down(128, 64), 128);
    assert_eq!(round_down(63, 64), 0);
    assert_eq!(round_down(0, 7), 0);
}

#[test]
fn ticks_conversion_exact() {
    assert_eq!(ticks_to_secs_nanos(32768), (1, 0));
    assert_eq!(ticks_to_secs_nanos(16384), (0, 500_000_000));
    assert_eq!(ticks_to_secs_nanos(1), (0, 30_517));
    assert_eq!(ticks_to_secs_nanos(32768 * 3 + 8192), (3, 250_000_000));
    assert_eq!(ticks_to_secs_nanos(32767), (0, 999_969_482));
}

#[test]
fn instants_and_durations() {
    let a = Instant::from_counter(0, 32768);
    let b = Instant::from_counter(0, 32768 * 2 + 16384);
    assert_eq!(b.duration_since(a), Duration::new(1, 500_000_000));
    assert_eq!(a.elapsed(b), Duration::new(1, 500_000_000));
    assert_eq!(a.duration_since(a), Duration::new(0, 0));
    let big = Instant::from_counter(1, 0);
    let zero = Instant::from_counter(0, 0);
    assert_eq!(big.duration_since(zero), Duration::new(131_072, 0));
    assert!(settled_counter(1, 2, 1, 2).is_some());
    assert!(settled_counter(1, 2, 1, 3).is_none());
    assert!(settled_counter(1, 2, 2, 2).is_none());
    let r = Rtc::enabled();
    assert_eq!(r.elapsed(0, 32768 * 10), Duration::new(10, 0));
}

#[test]
fn handles_are_exclusive() {
    let mut st = HandleState::Never;
    let leds = Leds::take(&mut st, true).unwrap();
    assert!(Leds::take(&mut st, true).is_none());
    leds.release(&mut st);
    assert!(st == HandleState::Free);
    let leds = Leds::take(&mut st, false).unwrap();
    leds.release(&mut st);

    let mut st = HandleState::Never;
    assert!(Leds::take(&mut st, false).is_none());
    assert!(st == HandleState::Taken);
    assert!(Leds::take(&mut st, true).is_none());

    let mut st = HandleState::Never;
    assert!(take_step(&mut st) == TakeStep::First);
    assert!(take_step(&mut st) == TakeStep::Refused);
    assert_eq!(handle_state_code(st), 1);
    assert_eq!(handle_state_code(HandleState::Never), 0);
    assert_eq!(handle_state_code(HandleState::Free), 2);
}

#[test]
fn led_register_values() {
    let mut st = HandleState::Never;
    let leds = Leds::take(&mut st, true).unwrap();
    assert_eq!(leds.blue.on(0xffff_ffff), 0xffff_ffff & !BLUE);
    assert_eq!(leds.blue.off(0), BLUE);
    assert_eq!(leds.blue.toggle(0), BLUE);
    assert_eq!(leds.blue.toggle(BLUE | WHITE), WHITE);
    assert_eq!(leds.white.on(WHITE | BLUE), BLUE);
    assert_eq!(leds.white.off(0), WHITE);
    assert_eq!(leds.white.toggle(leds.white.toggle(12345)), 12345);
}

#[test]
fn serial_decisions() {
    let mut st = HandleState::Never;
    let s = Serial::take(&mut st, true).unwrap();
    assert!(Serial::take(&mut st, true).is_none());
    assert_eq!(s.read(0, 0x41), None);
    assert_eq!(s.read(1 << 9, 0x141), Some(0x41));
    assert!(s.ready_to_write(1 << 13));
    assert!(!s.ready_to_write(0));
    assert!(Serial::flushed(1 << 3));
    assert!(!Serial::flushed(0));
    assert_eq!(s.listen(0x10, Event::ReceiveReady), 0x10 | (1 << 9));
    s.release(&mut st);
    let again = Serial::take(&mut st, false).unwrap();
    // a lent handle works while another context owns the interface
    assert!(Serial::borrow_unchecked(|b| b.ready_to_write(1 << 13)));
    assert_eq!(Serial::borrow_unchecked(|b| b.read(1 << 9, 0x42)), Some(0x42));
    again.release(&mut st);
}

#[test]
fn rng_status_decoding() {
    let sr = (0b1000_0101 << 24) | (3 << 8) | (1 << 5);
    let st = Stats::from_status(sr);
    assert!(st.monobit_test_failed);
    assert!(!st.length_1_run_test_failed);
    assert!(st.length_2_run_test_failed);
    assert!(st.long_run_test);
    assert!(!st.length_6_plus_run_test_failed);
    assert_eq!(fifo_level(sr), 3);
    assert!(seed_done(sr));
    assert!(!seed_done(0));
    assert!(fifo_step(1, sr, 1) == FifoStep::Reset);
    assert!(fifo_step(0, sr, 1) == FifoStep::Ready(3));
    assert!(fifo_step(0, sr, 5) == FifoStep::Wait);
    assert_eq!(words_to_read(3, 10), 3);
    assert_eq!(words_to_read(5, 2), 2);
}

#[test]
fn queue_head_fields() {
    let mut q = dQH::new();
    assert_eq!(q.get_max_packet_size(), 0);
    assert!(q.get_current_dtd().is_none());
    assert!(q.get_next_dtd().is_none());
    q.set_max_packet_size(512);
    assert_eq!(q.get_max_packet_size(), 512);
    q.set_address(0x8000_1000);
    assert_eq!(q.get_address(), 0x8000_1000);
    q.set_next_dtd(Some(Ref::new_unchecked(0x9000_0020)));
    assert_eq!(q.get_next_dtd().unwrap().as_ptr(), 0x9000_0020);
    q.set_next_dtd(None);
    assert!(q.get_next_dtd().is_none());
    q.clear_current_dtd();
    assert!(q.get_current_dtd().is_none());
    q.clear();
    assert_eq!(q.get_max_packet_size(), 0);
    assert_eq!(q.get_address(), 0x8000_1000);
    assert_eq!(q.get_token().get_total_bytes(), 0);
    let mut buf = [0xffu8; 12];
    q.copy_setup_bytes(&mut buf);
    assert_eq!(buf, [0, 0, 0, 0, 0, 0, 0, 0, 0xff, 0xff, 0xff, 0xff]);
    assert_eq!(Caps::new(64).max_packet_size(), 64);
    assert_eq!(Caps::empty().max_packet_size(), 0);
    let _r = Reserved::new();
}

#[test]
fn transfer_descriptor_pages() {
    let mut d = dTD::new();
    assert_eq!(d.next_dtd_addr(), 1);
    assert_eq!(d.page_list(), [0; 5]);
    d.set_pages(0x8000_0123);
    assert_eq!(d.page_list(), [0x8000_0123, 0x8000_1000, 0x8000_2000, 0x8000_3000, 0x8000_4000]);
    d.set_pages(0x8000_0000);
    assert_eq!(d.page_list(), [0x8000_0000, 0x8000_1000, 0x8000_2000, 0x8000_3000, 0x8000_4000]);
    let mut t = Token::empty();
    t.set_total_bytes(64);
    d.set_token(t);
    assert_eq!(d.get_token().get_total_bytes(), 64);
    d.set_next_dtd(Some(Ref::new_unchecked(0x100)));
    assert_eq!(d.next_dtd_addr(), 0x100);
    d.set_next_dtd(None);
    assert_eq!(d.next_dtd_addr(), 1);
}

#[test]
fn usb_controller_values() {
    assert_eq!(device_usbmode(0b11 | (1 << 4)), 0b10 | (1 << 3));
    assert!(in_device_mode(0b10));
    assert!(!in_device_mode(0b11));
    assert!(interrupts_pending(1));
    assert!(!interrupts_pending(2));
    assert!(irqs_masked(1 << 7));
    assert!(!irqs_masked(0));
    assert_eq!(in_endpoint_bit(0), 1);
    assert_eq!(in_endpoint_bit(1), 2);
    assert_eq!(reset_wcr(0xffff), 0xffef);
    assert_eq!(CPU_FREQUENCY, 528_000_000);
}

#[test]
fn wait_gives_up_after_the_timeout() {
    let start = Instant::from_counter(0, 100);
    // 32768 ticks is one second
    let now = Instant::from_counter(0, 100 + 32768 + 16384);
    assert_eq!(start.elapsed_parts(now), (1, 500_000_000));
    assert!(wait_step(true, start, now, 0, 0) == WaitStep::Done);
    assert!(wait_step(false, start, now, 1, 499_999_999) == WaitStep::TimedOut);
    assert!(wait_step(false, start, now, 1, 500_000_000) == WaitStep::Continue);
    assert!(wait_step(false, start, now, 2, 0) == WaitStep::Continue);
    assert!(wait_step(false, start, now, 0, 900_000_000) == WaitStep::TimedOut);
}

#[test]
fn init_runs_once() {
    let mut initialized = false;
    assert!(first_init(&mut initialized));
    assert!(initialized);
    assert!(!first_init(&mut initialized));
    assert!(initialized);
}

#[test]
fn elapsed_never_goes_back() {
    let r = Rtc::enabled();
    let a = r.elapsed(0, 32767);
    let b = r.elapsed(0, 32768);
    let c = r.elapsed(1, 0);
    assert!(a <= b && b <= c);
    assert!(a.subsec_nanos() < 1_000_000_000);
}
