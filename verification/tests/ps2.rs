//! The keyboard and mouse controller.

use vmm::access::RWOp;
use vmm::ps2::ctrl::{
    KeyEventRep, PS2Ctrl, PS2Effect, CFG_AUX_INTR_EN, CFG_PRI_INTR_EN, CFG_PRI_XLATE_EN,
    PS2C_CMD_CTRL_TEST, PS2C_CMD_PRI_PORT_TEST, PS2C_CMD_READ_CTRL_CFG, PS2C_CMD_READ_RAM_END,
    PS2C_CMD_READ_RAM_START, PS2C_CMD_WRITE_AUX_IN, PS2C_CMD_WRITE_CTRL_CFG,
    PS2C_CMD_WRITE_RAM_START, PS2C_RAM_LEN, PS2C_R_CTRL_TEST_PASS, PS2C_R_PORT_TEST_PASS,
    STATUS_AUX_FULL, STATUS_OUT_FULL, STATUS_UNLOCKED,
};
use vmm::ps2::{IRQ_PS2_AUX, IRQ_PS2_PRI, PORT_PS2_CMD_STATUS, PORT_PS2_DATA, PS2_BUFSZ};

fn port_out(ctrl: &mut PS2Ctrl, port: u16, bytes: usize, value: u32) {
    ctrl.pio_rw(port, RWOp::Write(&value.to_le_bytes()[..bytes]));
}

fn port_in(ctrl: &mut PS2Ctrl, port: u16, bytes: usize) -> u32 {
    let got = ctrl.pio_rw(port, RWOp::Read(bytes));
    let mut buf = [0u8; 4];
    buf[..bytes].copy_from_slice(&got);
    u32::from_le_bytes(buf)
}

fn set_ctrl_cfg(ctrl: &mut PS2Ctrl, cfg: u8) {
    port_out(ctrl, PORT_PS2_CMD_STATUS, 1, PS2C_CMD_WRITE_CTRL_CFG.into());
    port_out(ctrl, PORT_PS2_DATA, 1, cfg.into());
}

/// The scan codes of the two keys that the tests press.
fn key(keysym_raw: u32, is_pressed: bool) -> Option<KeyEventRep> {
    let (set1, set2) = match (keysym_raw, is_pressed) {
        (0x61, true) => (vec![0x1e], vec![0x1c]),
        (0x61, false) => (vec![0x9e], vec![0xf0, 0x1c]),
        (0xff53, true) => (vec![0xe0, 0x4d], vec![0xe0, 0x74]),
        (0xff53, false) => (vec![0xe0, 0xcd], vec![0xe0, 0xf0, 0x74]),
        other => panic!("no scan code for {other:?}"),
    };
    Some(KeyEventRep { set1, set2 })
}

#[test]
fn fresh_controller_reports_idle_status() {
    let mut ctrl = PS2Ctrl::create();

    assert_eq!(
        port_in(&mut ctrl, PORT_PS2_CMD_STATUS, 1),
        u32::from(STATUS_UNLOCKED)
    );
}

#[test]
fn controller_self_test_passes() {
    let mut ctrl = PS2Ctrl::create();

    port_out(&mut ctrl, PORT_PS2_CMD_STATUS, 1, PS2C_CMD_CTRL_TEST.into());

    assert_eq!(
        port_in(&mut ctrl, PORT_PS2_DATA, 1),
        u32::from(PS2C_R_CTRL_TEST_PASS)
    );
}

#[test]
fn wide_port_accesses_use_the_low_byte() {
    for bytes in [2, 4] {
        let mut ctrl = PS2Ctrl::create();

        port_out(&mut ctrl, 
            PORT_PS2_CMD_STATUS,
            bytes,
            PS2C_CMD_CTRL_TEST.into(),
        );

        assert_eq!(
            port_in(&mut ctrl, PORT_PS2_DATA, bytes),
            u32::from(PS2C_R_CTRL_TEST_PASS)
        );
    }
}

#[test]
fn primary_port_test_passes() {
    let mut ctrl = PS2Ctrl::create();

    port_out(&mut ctrl, PORT_PS2_CMD_STATUS, 1, PS2C_CMD_PRI_PORT_TEST.into());

    assert_eq!(
        port_in(&mut ctrl, PORT_PS2_DATA, 1),
        u32::from(PS2C_R_PORT_TEST_PASS)
    );
}

#[test]
fn controller_config_round_trips() {
    let mut ctrl = PS2Ctrl::create();
    let cfg: u8 = CFG_PRI_INTR_EN | CFG_PRI_XLATE_EN;

    port_out(&mut ctrl, PORT_PS2_CMD_STATUS, 1, PS2C_CMD_READ_CTRL_CFG.into());
    assert_eq!(port_in(&mut ctrl, PORT_PS2_DATA, 1), 0);

    set_ctrl_cfg(&mut ctrl, cfg);
    port_out(&mut ctrl, PORT_PS2_CMD_STATUS, 1, PS2C_CMD_READ_CTRL_CFG.into());

    assert_eq!(port_in(&mut ctrl, PORT_PS2_DATA, 1), u32::from(cfg));
}

#[test]
fn read_ram_top_of_range_does_not_panic() {
    let mut ctrl = PS2Ctrl::create();

    port_out(&mut ctrl, PORT_PS2_CMD_STATUS, 1, PS2C_CMD_READ_RAM_END.into());

    assert_eq!(port_in(&mut ctrl, PORT_PS2_DATA, 1), 0);
}

#[test]
fn ram_round_trips_over_full_command_range() {
    let mut ctrl = PS2Ctrl::create();

    for n in 0..PS2C_RAM_LEN as u8 {
        port_out(&mut ctrl, 
            PORT_PS2_CMD_STATUS,
            1,
            (PS2C_CMD_WRITE_RAM_START + n).into(),
        );
        port_out(&mut ctrl, PORT_PS2_DATA, 1, n.into());
    }

    for n in 0..PS2C_RAM_LEN as u8 {
        port_out(&mut ctrl, 
            PORT_PS2_CMD_STATUS,
            1,
            (PS2C_CMD_READ_RAM_START + n).into(),
        );
        assert_eq!(port_in(&mut ctrl, PORT_PS2_DATA, 1), u32::from(n));
    }
}

#[test]
fn write_ram_uses_command_prefix_not_data_byte() {
    let mut ctrl = PS2Ctrl::create();

    for n in 0..PS2C_RAM_LEN as u8 {
        port_out(&mut ctrl, 
            PORT_PS2_CMD_STATUS,
            1,
            (PS2C_CMD_WRITE_RAM_START + n).into(),
        );
        port_out(&mut ctrl, PORT_PS2_DATA, 1, 0xff);
    }

    port_out(&mut ctrl, PORT_PS2_CMD_STATUS, 1, PS2C_CMD_WRITE_RAM_START.into());
    port_out(&mut ctrl, PORT_PS2_DATA, 1, 0x00);

    for n in 0..PS2C_RAM_LEN as u8 {
        port_out(&mut ctrl, 
            PORT_PS2_CMD_STATUS,
            1,
            (PS2C_CMD_READ_RAM_START + n).into(),
        );
        let expected: u32 = if n == 0 { 0x00 } else { 0xff };
        assert_eq!(port_in(&mut ctrl, PORT_PS2_DATA, 1), expected);
    }
}

#[test]
fn every_data_byte_after_write_ram_prefix_is_safe() {
    let mut ctrl = PS2Ctrl::create();

    for v in u8::MIN..=u8::MAX {
        port_out(&mut ctrl, 
            PORT_PS2_CMD_STATUS,
            1,
            PS2C_CMD_WRITE_RAM_START.into(),
        );
        port_out(&mut ctrl, PORT_PS2_DATA, 1, v.into());
    }
}

#[test]
fn keyboard_identifies_as_mf2() {
    let mut ctrl = PS2Ctrl::create();

    port_out(&mut ctrl, PORT_PS2_DATA, 1, 0xf2);

    assert_eq!(port_in(&mut ctrl, PORT_PS2_DATA, 1), 0xfa);
    assert_eq!(port_in(&mut ctrl, PORT_PS2_DATA, 1), 0xab);
    assert_eq!(port_in(&mut ctrl, PORT_PS2_DATA, 1), 0x83);
}

#[test]
fn translation_selects_guest_visible_scan_code_set() {
    let mut set1 = PS2Ctrl::create();
    set_ctrl_cfg(&mut set1, CFG_PRI_XLATE_EN);

    set1.key_event(&key(0x61, true));
    assert_eq!(port_in(&mut set1, PORT_PS2_DATA, 1), 0x1e);
    set1.key_event(&key(0x61, false));
    assert_eq!(port_in(&mut set1, PORT_PS2_DATA, 1), 0x9e);

    let mut set2 = PS2Ctrl::create();
    set_ctrl_cfg(&mut set2, 0);

    set2.key_event(&key(0x61, true));
    assert_eq!(port_in(&mut set2, PORT_PS2_DATA, 1), 0x1c);
    set2.key_event(&key(0x61, false));
    assert_eq!(port_in(&mut set2, PORT_PS2_DATA, 1), 0xf0);
    assert_eq!(port_in(&mut set2, PORT_PS2_DATA, 1), 0x1c);
}

#[test]
fn extended_key_uses_selected_scan_code_set() {
    let mut set1 = PS2Ctrl::create();
    set_ctrl_cfg(&mut set1, CFG_PRI_XLATE_EN);

    set1.key_event(&key(0xff53, true));
    assert_eq!(port_in(&mut set1, PORT_PS2_DATA, 1), 0xe0);
    assert_eq!(port_in(&mut set1, PORT_PS2_DATA, 1), 0x4d);

    let mut set2 = PS2Ctrl::create();
    set_ctrl_cfg(&mut set2, 0);

    set2.key_event(&key(0xff53, true));
    assert_eq!(port_in(&mut set2, PORT_PS2_DATA, 1), 0xe0);
    assert_eq!(port_in(&mut set2, PORT_PS2_DATA, 1), 0x74);
}

#[test]
fn keyboard_data_pulses_primary_irq_when_enabled() {
    let mut ctrl = PS2Ctrl::create();
    set_ctrl_cfg(&mut ctrl, CFG_PRI_INTR_EN);

    ctrl.key_event(&key(0x61, true));

    let pulses = ctrl
        .take_effects()
        .into_iter()
        .filter(|e| *e == PS2Effect::PulsePrimary)
        .count();
    assert_eq!(pulses, 1);
}

#[test]
fn pulse_reset_command_requests_vm_reset() {
    let mut ctrl = PS2Ctrl::create();

    port_out(&mut ctrl, PORT_PS2_CMD_STATUS, 1, 0xfe);

    assert_eq!(ctrl.take_effects(), vec![PS2Effect::RequestReset]);
}

#[test]
fn ps2_port_and_irq_constants_kept_their_module_paths() {
    assert_eq!(vmm::ps2::PORT_PS2_DATA, 0x60);
    assert_eq!(vmm::ps2::PORT_PS2_CMD_STATUS, 0x64);
    assert_eq!(vmm::ps2::IRQ_PS2_PRI, 1);
    assert_eq!(vmm::ps2::IRQ_PS2_AUX, 12);
}

#[test]
fn an_unknown_key_puts_nothing_in_the_buffer() {
    let mut ctrl = PS2Ctrl::create();
    ctrl.key_event(&None);
    assert_eq!(port_in(&mut ctrl, PORT_PS2_CMD_STATUS, 1), u32::from(STATUS_UNLOCKED));
}

#[test]
fn the_mouse_answers_through_the_auxiliary_port() {
    let mut ctrl = PS2Ctrl::create();
    set_ctrl_cfg(&mut ctrl, CFG_AUX_INTR_EN);
    ctrl.take_effects();
    port_out(&mut ctrl, PORT_PS2_CMD_STATUS, 1, PS2C_CMD_WRITE_AUX_IN.into());
    port_out(&mut ctrl, PORT_PS2_DATA, 1, 0xf2);
    assert!(ctrl.take_effects().contains(&PS2Effect::PulseAuxiliary));
    let status = port_in(&mut ctrl, PORT_PS2_CMD_STATUS, 1) as u8;
    assert_eq!(status & (STATUS_OUT_FULL | STATUS_AUX_FULL), STATUS_OUT_FULL | STATUS_AUX_FULL);
    assert_eq!(port_in(&mut ctrl, PORT_PS2_DATA, 1), 0xfa);
    assert_eq!(port_in(&mut ctrl, PORT_PS2_DATA, 1), 0x00);
}

#[test]
fn keys_come_out_in_the_order_they_went_in() {
    let mut ctrl = PS2Ctrl::create();
    set_ctrl_cfg(&mut ctrl, 0);
    ctrl.key_event(&key(0x61, true));
    ctrl.key_event(&key(0xff53, true));
    let got: Vec<u32> = (0..3).map(|_| port_in(&mut ctrl, PORT_PS2_DATA, 1)).collect();
    assert_eq!(got, [0x1c, 0xe0, 0x74]);
}

#[test]
fn a_full_keyboard_buffer_keeps_its_bound() {
    let mut ctrl = PS2Ctrl::create();
    set_ctrl_cfg(&mut ctrl, 0);
    for _ in 0..100 {
        ctrl.key_event(&key(0x61, true));
    }
    let mut taken: usize = 0;
    while port_in(&mut ctrl, PORT_PS2_CMD_STATUS, 1) as u8 & STATUS_OUT_FULL != 0 {
        port_in(&mut ctrl, PORT_PS2_DATA, 1);
        taken += 1;
        assert!(taken <= PS2_BUFSZ);
    }
    assert!(taken > 0);
}

#[test]
fn a_reset_drops_the_configuration() {
    let mut ctrl = PS2Ctrl::create();
    set_ctrl_cfg(&mut ctrl, CFG_PRI_INTR_EN);
    ctrl.reset();
    port_out(&mut ctrl, PORT_PS2_CMD_STATUS, 1, PS2C_CMD_READ_CTRL_CFG.into());
    assert_eq!(port_in(&mut ctrl, PORT_PS2_DATA, 1), 0);
}
