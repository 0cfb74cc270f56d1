use rustboy_core::gb::apu::{Apu, Channel1, Channel3};

#[test]
fn power_on_register_values() {
    let a = Apu::new();
    assert_eq!(a.read_byte(0xFF24), 0x77);
    assert_eq!(a.read_byte(0xFF25), 0xF3);
    assert_eq!(a.read_byte(0xFF26), 0xF0);
}

#[test]
fn write_only_and_unused_registers_read_high() {
    let a = Apu::new();
    assert_eq!(a.read_byte(0xFF13), 0xFF);
    assert_eq!(a.read_byte(0xFF15), 0xFF);
    assert_eq!(a.read_byte(0xFF1D), 0xFF);
    assert_eq!(a.read_byte(0xFF20), 0xFF);
    assert_eq!(a.read_byte(0xFF27), 0xFF);
}

#[test]
fn channel_one_registers_round_trip_their_bits() {
    let mut a = Apu::new();
    a.write_byte(0xFF10, 0x7B);
    assert_eq!(a.read_byte(0xFF10), 0xFB);
    a.write_byte(0xFF11, 0x85);
    assert_eq!(a.read_byte(0xFF11), 0x85);
    assert_eq!(a.ch1.length_counter, 64 - 5);
    a.write_byte(0xFF12, 0xA3);
    assert_eq!(a.read_byte(0xFF12), 0xA3);
    a.write_byte(0xFF14, 0x40);
    assert_eq!(a.read_byte(0xFF14), 0xFF);
    a.write_byte(0xFF14, 0x00);
    assert_eq!(a.read_byte(0xFF14), 0xBF);
}

#[test]
fn wave_registers() {
    let mut a = Apu::new();
    a.write_byte(0xFF1A, 0x00);
    assert_eq!(a.read_byte(0xFF1A), 0x7F);
    a.write_byte(0xFF1A, 0x80);
    assert_eq!(a.read_byte(0xFF1A), 0xFF);
    a.write_byte(0xFF1C, 0x40);
    assert_eq!(a.read_byte(0xFF1C), 0xDF);
    a.write_byte(0xFF1B, 0x10);
    assert_eq!(a.ch3.length_counter, 256 - 0x10);
    a.write_byte(0xFF35, 0xAB);
    assert_eq!(a.read_byte(0xFF35), 0xAB);
}

#[test]
fn noise_registers() {
    let mut a = Apu::new();
    a.write_byte(0xFF22, 0x5B);
    assert_eq!(a.read_byte(0xFF22), 0x5B);
    a.write_byte(0xFF21, 0x47);
    assert_eq!(a.read_byte(0xFF21), 0x47);
    a.write_byte(0xFF23, 0x40);
    assert_eq!(a.read_byte(0xFF23), 0xC0);
}

#[test]
fn trigger_enables_a_channel_and_reports_it_in_nr52() {
    let mut a = Apu::new();
    a.write_byte(0xFF12, 0xF0);
    a.write_byte(0xFF11, 0x80);
    a.write_byte(0xFF14, 0x80);
    assert!(a.ch1.enabled);
    assert_eq!(a.ch1.env_volume, 15);
    assert_eq!(a.ch1.length_counter, 64);
    assert_eq!(a.read_byte(0xFF26), 0xF1);
}

#[test]
fn one_sample_holds_four_channel_levels() {
    let mut a = Apu::new();
    a.write_byte(0xFF12, 0xF0);
    a.write_byte(0xFF11, 0x80);
    a.write_byte(0xFF14, 0x80);
    a.step(96);
    let s = a.get_samples();
    assert_eq!(s, vec![15, 0, 0, 0]);
    assert!(a.get_samples().is_empty());
}

#[test]
fn samples_come_at_the_sample_rate() {
    let mut a = Apu::new();
    a.step(4_194_304);
    assert_eq!(a.get_samples().len(), 44100 * 4);
    a.step(95);
    assert_eq!(a.get_samples().len(), 0);
    a.step(1);
    assert_eq!(a.get_samples().len(), 4);
}

#[test]
fn power_off_resets_channels_and_silences_output() {
    let mut a = Apu::new();
    a.write_byte(0xFF12, 0xF0);
    a.write_byte(0xFF14, 0x80);
    a.write_byte(0xFF26, 0x00);
    assert!(!a.ch1.enabled);
    assert_eq!(a.read_byte(0xFF26), 0x70);
    a.step(96);
    assert_eq!(a.get_samples(), vec![0, 0, 0, 0]);
}

#[test]
fn length_counter_silences_channel_two() {
    let mut a = Apu::new();
    a.write_byte(0xFF17, 0xF0);
    a.write_byte(0xFF16, 0x3F); // length 1
    a.write_byte(0xFF19, 0xC0); // trigger with length enabled
    assert!(a.ch2.enabled);
    a.step(8192);
    assert!(!a.ch2.enabled);
    assert_eq!(a.read_byte(0xFF26) & 0x02, 0);
}

#[test]
fn channel_levels() {
    let mut c = Channel1::new();
    assert_eq!(c.level(), 0);
    c.enabled = true;
    c.duty = 2;
    c.duty_pos = 0;
    c.env_volume = 9;
    assert_eq!(c.level(), 9);
    c.duty_pos = 1;
    assert_eq!(c.level(), 0);
    let mut w = Channel3::new();
    w.enabled = true;
    w.dac_power = true;
    w.wave_ram[0] = 0xC3;
    w.volume_code = 1;
    assert_eq!(w.level(), 0x0C);
    w.position = 1;
    assert_eq!(w.level(), 0x03);
    w.volume_code = 2;
    assert_eq!(w.level(), 0x01);
    w.volume_code = 0;
    assert_eq!(w.level(), 0);
}

#[test]
fn apu_state_roundtrips_through_bytes() {
    let mut a = Apu::new();
    a.write_byte(0xFF12, 0xF0);
    a.write_byte(0xFF14, 0x80);
    a.write_byte(0xFF30, 0x12);
    a.step(1000);
    let mut buf = Vec::new();
    a.save(&mut buf);
    assert_eq!(buf.len(), 94);
    let mut b = Apu::new();
    let mut off = 0usize;
    b.load(&buf, &mut off);
    assert_eq!(off, 94);
    assert!(b.ch1.enabled);
    assert_eq!(b.ch1.freq_timer, a.ch1.freq_timer);
    assert_eq!(b.ch3.wave_ram[0], 0x12);
    assert_eq!(b.cycle_acc, a.cycle_acc);
    assert!(b.is_valid());
}

#[test]
fn trigger_writes_restart_each_channel() {
    let mut a = Apu::new();
    a.write_byte(0xFF17, 0xA3);
    a.write_byte(0xFF19, 0x87);
    assert!(a.ch2.enabled);
    assert_eq!(a.ch2.env_volume, 10);
    assert_eq!(a.ch2.length_counter, 64);
    assert_eq!(a.ch2.frequency, 0x700);
    assert_eq!(a.ch2.freq_timer, (2048 - 0x700) * 4);
    a.write_byte(0xFF1E, 0x80);
    assert!(a.ch3.enabled);
    assert_eq!(a.ch3.length_counter, 256);
    assert_eq!(a.ch3.position, 0);
    a.write_byte(0xFF21, 0x50);
    a.write_byte(0xFF23, 0x80);
    assert!(a.ch4.enabled);
    assert_eq!(a.ch4.lfsr, 0x7FFF);
    assert_eq!(a.ch4.env_volume, 5);
}

#[test]
fn unused_audio_addresses_change_nothing() {
    let mut a = Apu::new();
    a.write_byte(0xFF15, 0xFF);
    a.write_byte(0xFF1F, 0xFF);
    a.write_byte(0xFF27, 0xFF);
    assert_eq!(a.nr52, 0xF1);
    assert!(!a.ch2.enabled);
}

#[test]
fn stepping_runs_the_channel_two_timer() {
    let mut a = Apu::new();
    a.write_byte(0xFF18, 0x00);
    a.write_byte(0xFF19, 0x87); // trigger, frequency 0x700: period (2048 - 1792) * 4
    assert_eq!(a.ch2.freq_timer, 1024);
    a.step(1000);
    assert_eq!(a.ch2.freq_timer, 24);
    assert_eq!(a.ch2.duty_pos, 0);
    a.step(100);
    assert_eq!(a.ch2.freq_timer, 948);
    assert_eq!(a.ch2.duty_pos, 1);
}
