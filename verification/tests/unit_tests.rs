use sturdygb::cpu::opcode_size;
use sturdygb::debug_views::{build_bg_map_image, build_oam_image, build_vram_image};
use sturdygb::gb::OamSprite;
use sturdygb::library::is_library_extension;
use sturdygb::ppu::{Ppu, PpuMode};
use sturdygb::debugger::PendingStep;
use sturdygb::library::{visible_games, GameEntry};
use sturdygb::palette::SortMethod;
use sturdygb::stepping::DebuggerUiState;
use sturdygb::debug_views::{format_byte_list, format_pan_channels, parse_hex_u16, shade_to_rgba};
use sturdygb::disasm::disassemble_bytes;
use sturdygb::gb::ModelSelection;
use sturdygb::joypad::{Joypad, JoypadButton};
use sturdygb::memory::Memory;
use sturdygb::palette::{fill_screen_rgba, Palette};
use sturdygb::persistence::{decode_hex, encode_hex, fnv1a64, save_file_name, storage_key};
use sturdygb::prelude::GbInstance;
use sturdygb::serial::Serial;
use sturdygb::sound::Sound;
use sturdygb::timer::Timer;
use sturdygb::visual::{bytes_contain, CaptureProgress, VisualCaptureOutcome, VisualStopCondition};

fn blank_rom() -> Vec<u8> {
    let mut rom = vec![0u8; 0x8000];
    let mut checksum = 0u8;
    for byte in &rom[0x0134..=0x014C] {
        checksum = checksum.wrapping_sub(*byte).wrapping_sub(1);
    }
    rom[0x014D] = checksum;
    rom
}

#[test]
fn disassembles_immediate_operands_in_hex() {
    assert_eq!(disassemble_bytes(0x00, 0, 0, 0x100), "nop");
    assert_eq!(disassemble_bytes(0x01, 0x34, 0x12, 0x100), "ld bc 0x1234h");
    assert_eq!(disassemble_bytes(0xC3, 0x50, 0x01, 0x100), "jp 0x150h");
}

#[test]
fn opcode_sizes_follow_operand_count() {
    assert_eq!(opcode_size(0x00), 1);
    assert_eq!(opcode_size(0x3E), 2);
    assert_eq!(opcode_size(0xC3), 3);
}

#[test]
fn hex_decoding_rejects_odd_length_and_bad_digits() {
    assert_eq!(decode_hex("abc"), None);
    assert_eq!(decode_hex("zz"), None);
    assert_eq!(decode_hex("0aFF"), Some(vec![0x0A, 0xFF]));
    assert_eq!(encode_hex(&[0xAB, 0x01]), "ab01");
}

#[test]
fn fnv_hash_matches_known_values() {
    assert_eq!(fnv1a64(&[]), 0xcbf29ce484222325);
    assert_eq!(fnv1a64(b"a"), 0xaf63dc4c8601ec8c);
    assert_eq!(storage_key(&[]), "sturdygb_sram_cbf29ce484222325");
}

#[test]
fn save_file_name_falls_back_when_nothing_is_kept() {
    assert_eq!(save_file_name("!!!"), "sturdygb-save.sav");
    assert_eq!(save_file_name("a-b c"), "a-b_c.sav");
}

#[test]
fn div_counts_every_256_cycles() {
    let mut timer = Timer::new(0);
    assert!(!timer.advance(300));
    assert_eq!(timer.div, 1);
    assert_eq!(timer.cycles, 44);
    timer.advance(212);
    assert_eq!(timer.div, 2);
    assert_eq!(timer.cycles, 0);
}

#[test]
fn press_then_release_restores_button_states() {
    let mut joypad = Joypad::new();
    joypad.press(JoypadButton::A);
    assert_eq!(joypad.button_states, 0x0E);
    joypad.press(JoypadButton::Down);
    assert_eq!(joypad.dpad_states, 0x07);
    joypad.release(JoypadButton::A);
    joypad.release(JoypadButton::Down);
    assert_eq!(joypad.button_states, 0x0F);
    assert_eq!(joypad.dpad_states, 0x0F);
}

#[test]
fn apu_takes_samples_at_the_sample_rate() {
    let mut sound = Sound::new();
    assert!(sound.tick(1000).is_empty());
    sound.write_byte(0xFF26, 0x80);
    assert_eq!(sound.tick(95).len(), 0);
    assert_eq!(sound.tick(1).len(), 1);
}

#[test]
fn powering_apu_off_reads_back_0x70() {
    let mut sound = Sound::new();
    sound.write_byte(0xFF26, 0x80);
    sound.write_byte(0xFF26, 0x00);
    assert_eq!(sound.read_byte(0xFF26), 0x70);
}

#[test]
fn palette_paints_every_pixel() {
    let mut screen = [[0u8; 160]; 144];
    screen[0][1] = 3;
    screen[143][159] = 1;
    let mut rgba = vec![0u8; 160 * 144 * 4];
    fill_screen_rgba(&mut rgba, &screen, Palette::Greyscale);
    assert_eq!(&rgba[0..4], &[255, 255, 255, 255]);
    assert_eq!(&rgba[4..8], &[0, 0, 0, 255]);
    let last = (143 * 160 + 159) * 4;
    assert_eq!(&rgba[last..last + 4], &[192, 192, 192, 255]);
    assert_eq!(Palette::ClassicGreen.colors()[0], (224, 248, 208));
}

#[test]
fn debug_formatting_helpers() {
    assert_eq!(format_byte_list(&[0x0A, 0xFF]), "0A FF");
    assert_eq!(format_byte_list(&[]), "");
    assert_eq!(format_pan_channels(&[true, false, true, false]), "CH1 CH3");
    assert_eq!(format_pan_channels(&[false; 4]), "none");
    assert_eq!(parse_hex_u16("0x1F", 7), 0x1F);
    assert_eq!(parse_hex_u16("zz", 7), 7);
    assert_eq!(shade_to_rgba(2), [96, 96, 96, 255]);
}

#[test]
fn serial_search_finds_needles() {
    assert!(bytes_contain(b"Tests Passed", b"Passed"));
    assert!(!bytes_contain(b"Tests", b"Passed"));
    assert!(bytes_contain(b"abc", b""));
}

#[test]
fn stop_conditions_judge_frames_and_mooneye_results() {
    let mut gb = GbInstance::build_from_bytes_with_model(blank_rom(), None, ModelSelection::Auto)
        .expect("blank ROM should build");
    let frames = VisualStopCondition::Frames { frames: 2 };
    assert_eq!(frames.evaluate(&gb, 0, 1, 0, "", None, None, None), None);
    assert_eq!(frames.evaluate(&gb, 0, 2, 0, "", None, None, None), Some(None));

    gb.cpu.registers[2..8].copy_from_slice(&[3, 5, 8, 13, 21, 34]);
    let mooneye = VisualStopCondition::MooneyeResult { min_steps: 0 };
    assert_eq!(
        mooneye.evaluate(&gb, 0x40, 0, 10, "", None, None, None),
        Some(Some("mooneye: pass".to_string()))
    );
    assert_eq!(mooneye.evaluate(&gb, 0x00, 0, 10, "", None, None, None), None);

    let any = VisualStopCondition::Any {
        conditions: vec![
            VisualStopCondition::SerialContains { needle: "Passed".to_string() },
            VisualStopCondition::Frames { frames: 100 },
        ],
    };
    assert_eq!(any.evaluate(&gb, 0, 0, 0, "Passed", None, None, None), Some(None));
    assert_eq!(any.evaluate(&gb, 0, 0, 0, "Failed", None, None, None), None);
    assert_eq!(VisualCaptureOutcome::StepLimitReached.as_str(), "step-limit-reached");
}

#[test]
fn debugger_steps_over_calls_and_reports_stops() {

    let mut rom = blank_rom();
    rom[0x100] = 0xCD;
    let mut gb = GbInstance::build_from_bytes(rom, None).expect("blank ROM should build");
    let mut debugger = DebuggerUiState::new();
    assert!(!debugger.needs_instruction_loop());

    debugger.request_step_over(Some(&gb));
    assert_eq!(debugger.pending_step, Some(PendingStep::Over { target_pc: 0x103, initial_sp: 0xFFFE }));
    assert_eq!(debugger.ignore_breakpoint_once, Some(0x100));
    assert!(debugger.needs_instruction_loop());
    assert_eq!(debugger.after_instruction(&gb), None);

    gb.cpu.pc = 0x103;
    assert_eq!(debugger.after_instruction(&gb), Some(true));
    assert_eq!(debugger.last_stop_reason.as_deref(), Some("Step completed at 0103"));
    assert_eq!(debugger.pending_step, None);

    debugger.breakpoints.insert(0x0150);
    debugger.prepare_resume(Some(&gb));
    assert!(!debugger.check_breakpoint(0x0103));
    assert!(debugger.check_breakpoint(0x0150));
    assert_eq!(debugger.last_stop_reason.as_deref(), Some("Breakpoint hit at 0150"));

    debugger.watchpoints.insert(0xC000);
    gb.write_byte(0xC000, 0x05);
    assert_eq!(debugger.after_instruction(&gb), Some(true));
    assert_eq!(debugger.last_stop_reason.as_deref(), Some("Watchpoint hit at C000 = 05"));

    debugger.focus_memory_address(0xBEEF);
    assert_eq!(debugger.memory_jump_input, "BEEF");
}

#[test]
fn resuming_passes_the_breakpoint_at_pc_once() {

    let gb = GbInstance::build_from_bytes(blank_rom(), None).expect("blank ROM should build");
    let mut debugger = DebuggerUiState::new();
    debugger.breakpoints.insert(0x0100);
    debugger.prepare_resume(Some(&gb));
    assert!(!debugger.check_breakpoint(0x0100));
    assert!(debugger.check_breakpoint(0x0100));
}

#[test]
fn trace_line_lists_registers_and_bytes_at_pc() {
    let gb = GbInstance::build_from_bytes(blank_rom(), None).expect("blank ROM should build");
    assert_eq!(
        gb.debug_message(),
        "A:01 F:B0 B:00 C:13 D:00 E:D8 H:01 L:4D SP:FFFE PC:0100 PCMEM:00,00,00,00 LY:00 STAT: C6"
    );
}

fn entry(filename: &str, title: &str, company: &str) -> GameEntry {
    GameEntry {
        path: format!("roms/{filename}"),
        filename: filename.to_string(),
        title: title.to_string(),
        company: company.to_string(),
    }
}

#[test]
fn library_filters_case_insensitively_and_sorts_stably() {

    let games = vec![
        entry("zelda.gb", "ZELDA", "Nintendo"),
        entry("tetris.gb", "TETRIS", "Nintendo"),
        entry("kirby.gb", "KIRBY", "HAL"),
        entry("alpha.gbc", "ZELDA", "Other"),
    ];
    assert_eq!(visible_games(&games, "", SortMethod::Filename, true), vec![3, 2, 1, 0]);
    assert_eq!(visible_games(&games, "", SortMethod::Title, true), vec![2, 1, 0, 3]);
    assert_eq!(visible_games(&games, "", SortMethod::Title, false), vec![0, 3, 1, 2]);
    assert_eq!(visible_games(&games, "NINTENDO", SortMethod::Company, true), vec![0, 1]);
    assert_eq!(visible_games(&games, "gbc", SortMethod::Filename, true), vec![3]);
    assert!(visible_games(&games, "mario", SortMethod::Filename, true).is_empty());
}

#[test]
fn powering_apu_off_clears_its_registers() {
    let mut sound = Sound::new();
    sound.write_byte(0xFF26, 0x80);
    sound.write_byte(0xFF24, 0x77);
    sound.write_byte(0xFF12, 0xF3);
    assert_eq!(sound.read_byte(0xFF24), 0x77);
    assert_eq!(sound.read_byte(0xFF12), 0xF3);
    sound.write_byte(0xFF26, 0x00);
    assert_eq!(sound.read_byte(0xFF24), 0x00);
    assert_eq!(sound.read_byte(0xFF12), 0x00);
    assert_eq!(sound.read_byte(0xFF25), 0x00);
    assert_eq!(sound.read_byte(0xFF26), 0x70);
}

#[test]
fn serial_output_is_taken_once() {
    let mut serial = Serial::new();
    serial.write_byte(0xFF01, b'B');
    serial.write_byte(0xFF02, 0x81);
    assert_eq!(serial.get_serial_message(), Some("B".to_string()));
    assert_eq!(serial.get_serial_message(), None);
}

#[test]
fn built_machine_starts_at_the_cartridge_entry() {
    let mut rom = blank_rom();
    rom[0x100] = 0xC3;
    rom[0x101] = 0x50;
    rom[0x102] = 0x01;
    let mut gb = GbInstance::build_from_bytes(rom, None).expect("blank ROM should build");
    assert_eq!(gb.cpu.pc, 0x0100);
    gb.cpu.current_instruction = 0xC3;
    assert_eq!(gb.disassemble(), "jp 0x150h");
    assert!(!gb.needs_save());
}

#[test]
fn library_labels_fall_back_without_a_valid_header() {
    use_labels_check();
}

fn use_labels_check() {
    let (title, company) = sturdygb::library::game_labels(&vec![0u8; 0x40]);
    assert_eq!(title, "Unknown Title");
    assert_eq!(company, "Unknown Company");
    let mut rom = blank_rom();
    rom[0x14D] = rom[0x14D].wrapping_add(1);
    let (title, company) = sturdygb::library::game_labels(&rom);
    assert_eq!(title, "Unknown Title");
    assert_eq!(company, "Unknown Company");
}

#[test]
fn power_on_state_follows_the_documented_registers() {
    let ppu = Ppu::new(false, false);
    assert_eq!(ppu.get_ppu_mode(), PpuMode::SearchingOAM);
    assert_eq!(ppu.mode, PpuMode::SearchingOAM);
    assert!(ppu.stat & 0x40 != 0);
    let joypad = Joypad::new();
    assert_eq!(joypad.read_byte(0xFF00) & 0x0F, 0x0F);
    assert_eq!(joypad.read_byte(0xFF00) & 0x30, 0x30);
}

#[test]
fn oam_dma_copies_160_bytes() {
    let mut gb = GbInstance::build_from_bytes(blank_rom(), None).expect("blank ROM should build");
    for i in 0..0xA0u16 {
        gb.write_byte(0xC000 + i, (i as u8).wrapping_mul(3));
    }
    gb.write_byte(0xFF46, 0xC0);
    for i in 0..0xA0usize {
        assert_eq!(gb.ppu.oam[i], (i as u8).wrapping_mul(3));
    }
}

#[test]
fn library_keeps_rom_and_archive_files() {
    assert!(is_library_extension("gb"));
    assert!(is_library_extension("GBC"));
    assert!(is_library_extension("Zip"));
    assert!(!is_library_extension("sav"));
}

#[test]
fn debugger_images_paint_tiles() {
    let mut vram = vec![0u8; 32];
    vram[16] = 0xFF;
    vram[17] = 0xFF;
    let (rgba, width, height) = build_vram_image(&vram);
    assert_eq!((width, height), (128, 8));
    assert_eq!(&rgba[0..4], &[255, 255, 255, 255]);
    assert_eq!(&rgba[8 * 4..8 * 4 + 4], &[0, 0, 0, 255]);
    assert_eq!(&rgba[16 * 4..16 * 4 + 4], &[0, 0, 0, 0]);

    let map = vec![1u8; 1024];
    let (rgba, width, height) = build_bg_map_image(&vram, None, &map, None, false);
    assert_eq!((width, height), (256, 256));
    assert_eq!(&rgba[0..4], &[0, 0, 0, 255]);
    assert_eq!(&rgba[256 * 4..256 * 4 + 4], &[255, 255, 255, 255]);

    let sprites = vec![OamSprite { index: 0, y: 16, x: 8, tile_number: 1, attributes: 0 }];
    let (rgba, width, height) = build_oam_image(&vram, None, &sprites, 8);
    assert_eq!((width, height), (80, 8));
    assert_eq!(&rgba[0..4], &[0, 0, 0, 255]);
    assert_eq!(&rgba[8 * 4..8 * 4 + 4], &[0, 0, 0, 0]);
}

#[test]
fn capture_progress_tracks_serial_and_screen_changes() {
    let mut progress = CaptureProgress::new();
    progress.record_serial("Pass", 10);
    progress.record_serial("", 11);
    assert_eq!(progress.serial_output, "Pass");
    assert_eq!(progress.last_serial_change_step, Some(10));
    progress.record_frame(vec![0, 1, 2]);
    progress.record_frame(vec![0, 1, 2]);
    assert_eq!(progress.completed_frames, 2);
    assert_eq!(progress.last_screen_change_frame, Some(1));
    assert_eq!(progress.quiet_counts(15), (Some(5), Some(2), Some(1)));

    let mut gb = GbInstance::build_from_bytes(blank_rom(), None).expect("blank ROM should build");
    gb.write_byte(0xFF01, b'O');
    gb.write_byte(0xFF02, 0x81);
    let stop = VisualStopCondition::SerialContains { needle: "PassO".to_string() };
    assert_eq!(progress.observe(&mut gb, 16, &stop), Some(None));
    assert_eq!(progress.serial_output, "PassO");
}
