use firmware::i2c::{Command, WriteRequest};
use firmware::mma8652fc::{Accel, Register, I2C_ADDRESS, MMA8652FC, RESET_PAUSE};
use firmware::ssd1306::SSD1306;
use firmware::state::{ConfigPage, Keys, State, StateMachine};

fn machine_in(state: State) -> StateMachine {
    let mut m = StateMachine::new();
    match state {
        State::Idle => {}
        State::Soldering => {
            m.update_keys(Keys::A);
            m.update_state();
        }
        State::Thermometer => {
            m.update_keys(Keys::B);
            m.update_state();
        }
        State::TemperatureControl => {
            m.update_keys(Keys::A);
            m.update_state();
            m.update_keys(Keys::A);
            m.update_state();
        }
        _ => panic!("not reachable from Idle"),
    }
    assert_eq!(m.current_state(), state);
    m
}

#[test]
fn new_machine_is_idle() {
    let m = StateMachine::new();
    assert_eq!(m.current_state(), State::Idle);
    assert_eq!(m.get_accel(), Accel { x: 0, y: 0, z: 0 });
}

#[test]
fn idle_key_a_starts_soldering_and_consumes_key() {
    let mut m = StateMachine::new();
    m.update_keys(Keys::A);
    m.update_state();
    assert_eq!(m.current_state(), State::Soldering);
    // the key was consumed: another update leaves the state alone
    m.update_state();
    assert_eq!(m.current_state(), State::Soldering);
}

#[test]
fn soldering_transitions() {
    let mut m = machine_in(State::Soldering);
    m.update_keys(Keys::AB);
    m.update_state();
    assert_eq!(m.current_state(), State::Idle);

    let mut m = machine_in(State::Soldering);
    m.update_keys(Keys::A);
    m.update_state();
    assert_eq!(m.current_state(), State::TemperatureControl);

    let mut m = machine_in(State::Soldering);
    m.update_keys(Keys::B);
    m.update_state();
    assert_eq!(m.current_state(), State::TemperatureControl);
}

#[test]
fn idle_key_b_and_fallbacks() {
    let mut m = StateMachine::new();
    m.update_keys(Keys::B);
    m.update_state();
    assert_eq!(m.current_state(), State::Thermometer);

    let mut m = machine_in(State::Thermometer);
    m.update_keys(Keys::A);
    m.update_state();
    assert_eq!(m.current_state(), State::Idle);

    let mut m = StateMachine::new();
    m.update_keys(Keys::AB);
    m.update_state();
    assert_eq!(m.current_state(), State::Idle);

    let mut m = machine_in(State::TemperatureControl);
    m.update_keys(Keys::NoKey);
    m.update_state();
    assert_eq!(m.current_state(), State::TemperatureControl);
    m.update_keys(Keys::B);
    m.update_state();
    assert_eq!(m.current_state(), State::Idle);
    assert_ne!(State::Config(ConfigPage::Save), State::Idle);
}

#[test]
fn accel_sample_is_kept() {
    let mut m = StateMachine::new();
    let a = Accel { x: -5, y: 300, z: 16384 };
    m.update_accel(a);
    m.update_keys(Keys::A);
    m.update_state();
    assert_eq!(m.get_accel(), a);
}

#[test]
fn register_addresses() {
    assert_eq!(Register::STATUS.addr(), 0x00);
    assert_eq!(Register::OUT_X_MSB.addr(), 0x01);
    assert_eq!(Register::WHO_AM_I.addr(), 0x0D);
    assert_eq!(Register::TRANSIENT_CFG.addr(), 0x1D);
    assert_eq!(Register::CTRL_REG1.addr(), 0x2A);
    assert_eq!(Register::OFF_Z.addr(), 0x31);
}

fn w(register: u8, value: u8) -> Command {
    Command::Write(WriteRequest { slave: I2C_ADDRESS, register, value })
}

#[test]
fn accelerometer_init_plan() {
    let plan = MMA8652FC.init();
    assert_eq!(plan.len(), 14);
    assert_eq!(plan[0], w(0x2B, 0));
    assert_eq!(plan[1], w(0x2B, 0x40));
    assert_eq!(plan[2], Command::Pause(RESET_PAUSE));
    assert_eq!(plan[8], w(0x2D, 0x11));
    assert_eq!(plan[11], w(0x0E, 0x10));
    assert_eq!(plan[13], w(0x2A, 0x19));
}

#[test]
fn accelerometer_sensitivity_plan() {
    let plan = MMA8652FC.set_sensitivity(10, 3);
    assert_eq!(plan, vec![w(0x2A, 0), w(0x17, 15), w(0x18, 3), w(0x2A, 0x31)]);
    let plan = MMA8652FC.set_sensitivity(0, 0);
    assert_eq!(plan[1], w(0x17, 35));
}

#[test]
fn accel_decodes_big_endian_signed() {
    let a = MMA8652FC.accel(&[0x00, 0x01, 0x7F, 0xFF, 0xFF, 0xFF]);
    assert_eq!(a, Accel { x: 1, y: 32767, z: -1 });
    let a = MMA8652FC.accel(&[0x01, 0x00, 0x80, 0x01, 0xC0, 0x04]);
    assert_eq!(a, Accel { x: 256, y: -32767, z: -16380 });
}

#[test]
fn display_commands() {
    let oled = SSD1306(0x3C);
    assert_eq!(
        oled.send_command(0xAF),
        Command::Write(WriteRequest { slave: 0x3C, register: 0x80, value: 0xAF })
    );
    assert_eq!(
        oled.send_data(0x7E),
        Command::Write(WriteRequest { slave: 0x3C, register: 0x40, value: 0x7E })
    );
    let init = oled.init();
    assert_eq!(init.len(), 17);
    assert_eq!(init[0], oled.send_command(0x8d));
    assert_eq!(init[2], oled.send_command(0xAE));
    assert_eq!(init[16], oled.send_command(0xAF));
}

#[test]
fn display_print() {
    let oled = SSD1306(0x3C);
    let font: Vec<u8> = (0..480u32).map(|i| (i % 251) as u8).collect();
    let out = oled.print(2, 1, "A\n!", &font);
    // column 6 * 2 + 32 = 44 = 0x2C
    assert_eq!(out[0], oled.send_command(0x0C));
    assert_eq!(out[1], oled.send_command(0x12));
    assert_eq!(out[2], oled.send_command(0xB1));
    assert_eq!(out.len(), 3 + 6 + 6);
    // 'A' is glyph 0x21
    for c in 0..5 {
        assert_eq!(out[3 + c], oled.send_data((0x21 * 5 + c) as u8));
    }
    assert_eq!(out[8], oled.send_data(0));
    // '!' is glyph 1; the newline is skipped
    for c in 0..5 {
        assert_eq!(out[9 + c], oled.send_data((5 + c) as u8));
    }
    assert_eq!(out[14], oled.send_data(0));
}

#[test]
fn display_print_empty_text() {
    let oled = SSD1306(0x3C);
    let font = vec![0u8; 480];
    let out = oled.print(37, 0, "", &font);
    // column 6 * 37 + 32 = 254 = 0xFE
    assert_eq!(out, vec![oled.send_command(0x0E), oled.send_command(0x1F), oled.send_command(0xB0)]);
}
