use chip8::control::{
    apply_key_actions, press_matching, should_cycle, sound_step, tick_key_timers, KeyActions,
    LoopControl,
};
use chip8::render::render_frame;
use chip8::{init, load_image, LoadError};

fn no_actions() -> KeyActions {
    KeyActions { exit: false, next_step: false, step: false, debug: false, mem_dump: false }
}

#[test]
fn load_image_pads_with_zeroes() {
    let bytes = vec![1u8, 2, 3];
    let img = load_image(&bytes).unwrap();
    assert_eq!(img[0], 1);
    assert_eq!(img[1], 2);
    assert_eq!(img[2], 3);
    assert_eq!(img[3], 0);
    assert_eq!(img[3583], 0);
}

#[test]
fn load_image_accepts_full_size() {
    let bytes = vec![7u8; 3584];
    let img = load_image(&bytes).unwrap();
    assert_eq!(img[3583], 7);
}

#[test]
fn load_image_rejects_oversized() {
    let bytes = vec![0u8; 3585];
    assert_eq!(load_image(&bytes), Err(LoadError::TooLarge { size: 3585 }));
}

#[test]
fn key_actions_toggle_modes() {
    let mut ctl = LoopControl {
        exit: false,
        step: false,
        next_step: false,
        debug: true,
        info_redraw: false,
    };
    let ka = KeyActions { exit: false, next_step: true, step: true, debug: true, mem_dump: false };
    apply_key_actions(&mut ctl, &ka);
    assert!(!ctl.exit);
    assert!(ctl.next_step);
    assert!(ctl.step);
    assert!(!ctl.debug);
    assert!(ctl.info_redraw);

    let mut ctl2 = ctl;
    apply_key_actions(&mut ctl2, &no_actions());
    assert!(ctl2.step);
    assert!(!ctl2.debug);
    assert!(ctl2.info_redraw);
}

#[test]
fn cycle_gating() {
    let free_run = LoopControl {
        exit: false,
        step: false,
        next_step: false,
        debug: false,
        info_redraw: false,
    };
    assert!(should_cycle(&free_run, false));
    assert!(!should_cycle(&free_run, true));
    let stepping = LoopControl { step: true, ..free_run };
    assert!(!should_cycle(&stepping, false));
    let stepping_once = LoopControl { step: true, next_step: true, ..free_run };
    assert!(should_cycle(&stepping_once, false));
}

#[test]
fn key_timers_release_keys() {
    let mut timers = [0u8; 16];
    let mut keypad = [0u8; 16];
    timers[3] = 2;
    keypad[3] = 1;
    timers[5] = 1;
    keypad[5] = 1;
    tick_key_timers(&mut timers, &mut keypad);
    assert_eq!(timers[3], 1);
    assert_eq!(keypad[3], 1);
    assert_eq!(timers[5], 0);
    assert_eq!(keypad[5], 0);
    tick_key_timers(&mut timers, &mut keypad);
    assert_eq!(timers[3], 0);
    assert_eq!(keypad[3], 0);
}

#[test]
fn pressing_a_bound_character() {
    let keys = [
        'x', '1', '2', '3', 'q', 'w', 'e', 'a', 's', 'd', 'z', 'c', '4', 'r', 'f', 'v',
    ];
    let mut keypad = [0u8; 16];
    let mut timers = [0u8; 16];
    press_matching(&mut keypad, &mut timers, &keys, 'w');
    assert_eq!(keypad[5], 1);
    assert_eq!(timers[5], 25);
    for k in 0..16 {
        if k != 5 {
            assert_eq!(keypad[k], 0);
            assert_eq!(timers[k], 0);
        }
    }
    press_matching(&mut keypad, &mut timers, &keys, '?');
    assert_eq!(keypad[5], 1);
    assert_eq!(timers[5], 25);
}

#[test]
fn sound_countdown() {
    let mut beep = true;
    let mut timer = 0u8;
    let first = sound_step(&mut beep, &mut timer);
    assert!(first.play);
    assert!(!first.pause);
    assert!(!beep);
    assert_eq!(timer, 24);
    for _ in 0..23 {
        let mid = sound_step(&mut beep, &mut timer);
        assert!(!mid.play);
        assert!(!mid.pause);
    }
    assert_eq!(timer, 1);
    let last = sound_step(&mut beep, &mut timer);
    assert!(!last.play);
    assert!(last.pause);
    assert_eq!(timer, 0);
    let idle = sound_step(&mut beep, &mut timer);
    assert!(!idle.play);
    assert!(!idle.pause);
}

#[test]
fn rendered_frame_shape() {
    let mut emu = init([0u8; 3584]);
    emu.gfx[0] = 1;
    emu.gfx[65] = 1; // row 1, column 1
    let text = render_frame(&emu.gfx);
    let lines: Vec<&str> = text.split("\r\n").collect();
    assert_eq!(lines.len(), 33); // 32 rows plus the trailing empty piece
    assert_eq!(lines[32], "");
    assert_eq!(lines[0].len(), 64);
    assert!(lines[0].starts_with('#'));
    assert_eq!(&lines[0][1..], &" ".repeat(63));
    assert_eq!(&lines[1][0..2], " #");
    assert_eq!(lines[31], &" ".repeat(64));
}
