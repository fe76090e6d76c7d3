use sign_firmware::printer::{JustifyMode, PrinterEvent, PrinterInstruction};
use sign_firmware::{Block, Color};

#[test]
fn midnight_notice_is_centered_and_bold() {
    let msg = PrinterEvent::Zero.message();
    assert_eq!(
        msg,
        vec![
            PrinterInstruction::Justify(JustifyMode::Center),
            PrinterInstruction::Bold(true),
            PrinterInstruction::Text("A NEW DAY DAWNS".to_string()),
            PrinterInstruction::PrintCut,
        ]
    );
}

#[test]
fn bolt_notice_prints_the_counter_in_hex() {
    let msg = PrinterEvent::NewBolt(0x1F).message();
    assert_eq!(
        msg,
        vec![
            PrinterInstruction::Text("Lightning strikes! It is now bolt 1f".to_string()),
            PrinterInstruction::PrintCut,
        ]
    );
}

#[test]
fn small_counters_print_without_a_leading_zero() {
    let msg = PrinterEvent::NewBolt(5).message();
    assert_eq!(
        msg[0],
        PrinterInstruction::Text("Lightning strikes! It is now bolt 5".to_string())
    );
}

#[test]
fn zap_notice_prints_the_counter_in_hex() {
    let msg = PrinterEvent::NewZap(0xAC).message();
    assert_eq!(
        msg,
        vec![
            PrinterInstruction::Text(
                "Did you just lick a 9V battery? It is now zap ac".to_string()
            ),
            PrinterInstruction::PrintCut,
        ]
    );
}

#[test]
fn button_notice_is_centered_and_bold() {
    let msg = PrinterEvent::ButtonPressed.message();
    assert_eq!(msg.len(), 4);
    assert_eq!(
        msg[2],
        PrinterInstruction::Text("SOMEONE JUST PRESSED THE SECRET BUTTON!".to_string())
    );
}

#[test]
fn blocks_use_three_consecutive_channels() {
    assert_eq!(Block::Center.channel_for_color(Color::Red), 0);
    assert_eq!(Block::Center.channel_for_color(Color::Blue), 2);
    assert_eq!(Block::BottomLeft.channel_for_color(Color::Red), 3);
    assert_eq!(Block::Right.channel_for_color(Color::Green), 10);
    assert_eq!(Block::Top.channel_for_color(Color::Blue), 14);
}
