use dungeon_core::text;

#[test]
fn numbers_render_in_decimal() {
    assert_eq!(text::i32_to_string(0), "0");
    assert_eq!(text::i32_to_string(8), "8");
    assert_eq!(text::i32_to_string(12345), "12345");
    assert_eq!(text::i32_to_string(-8), "-8");
    assert_eq!(text::i32_to_string(i32::MAX), "2147483647");
    assert_eq!(text::i32_to_string(i32::MIN), "-2147483648");
    assert_eq!(text::u64_to_string(18446744073709551615), "18446744073709551615");
}

#[test]
fn log_messages_use_the_fixed_templates() {
    assert_eq!(text::build_pickup_message("Health Potion"), "You pick up the Health Potion.");
    assert_eq!(
        text::build_drink_message("Health Potion", 8),
        "You drink the Health Potion, healing 8 hp."
    );
    assert_eq!(
        text::build_damage_message("Magic Missile Scroll", "Orc", 8),
        "You use Magic Missile Scroll on Orc, inflicting 8 damage."
    );
    assert_eq!(text::build_drop_message("Dagger"), "You drop the Dagger.");
}
