use sei::error::SeiError;
use sei::settings::{BitDepth, Padding, SeiSettings, StackingMode};

#[test]
fn test_sei_settings() {
    let settings: u8 = 0b0010_0100;
    let parsed = SeiSettings::parse(settings).unwrap();
    assert_eq!(
        parsed,
        SeiSettings {
            bit_depth: BitDepth::OneBit,
            invert: true,
            padding: Padding::Padding,
            stacking_mode: StackingMode::BlackTransparent,
            ..Default::default()
        }
    );
}

#[test]
fn settings_reserved_bits_kept() {
    let parsed = SeiSettings::parse(0b1101_0000).unwrap();
    assert_eq!(parsed.unused_bits, 0b11);
    assert_eq!(parsed.stacking_mode, StackingMode::WhiteTransparent);
    assert!(!parsed.invert);
}

#[test]
fn settings_errors() {
    assert_eq!(SeiSettings::parse(0b01), Err(SeiError::UnsupportedBitDepth));
    assert_eq!(SeiSettings::parse(0b10), Err(SeiError::UnsupportedBitDepth));
    assert_eq!(SeiSettings::parse(0b11), Err(SeiError::UnsupportedBitDepth));
    assert_eq!(SeiSettings::parse(0b0011_0000), Err(SeiError::UnsupportedTransparency));
    assert_eq!(SeiSettings::parse(0b0000_1000), Err(SeiError::NoPadding));
    // The padding check comes first.
    assert_eq!(SeiSettings::parse(0b0011_1011), Err(SeiError::NoPadding));
    // Then the bit depth.
    assert_eq!(SeiSettings::parse(0b0011_0001), Err(SeiError::UnsupportedBitDepth));
}

#[test]
fn settings_default_is_byte_zero() {
    assert_eq!(SeiSettings::parse(0).unwrap(), SeiSettings::default());
}

#[test]
fn field_codecs() {
    assert_eq!(BitDepth::parse(0), Ok(BitDepth::OneBit));
    assert_eq!(BitDepth::parse(1), Err(SeiError::UnsupportedBitDepth));
    assert_eq!(BitDepth::OneBit.bits(), 1);
    assert_eq!(BitDepth::TwoBits.bits(), 2);
    assert_eq!(BitDepth::FourBits.bits(), 4);
    assert_eq!(StackingMode::parse(0), Ok(StackingMode::Opaque));
    assert_eq!(StackingMode::parse(1), Ok(StackingMode::WhiteTransparent));
    assert_eq!(StackingMode::parse(2), Ok(StackingMode::BlackTransparent));
    assert_eq!(StackingMode::parse(3), Err(SeiError::UnsupportedTransparency));
    assert_eq!(Padding::parse(true), Padding::Padding);
    assert_eq!(Padding::parse(false), Padding::NoPadding);
    assert!(Padding::Padding.padding());
    assert!(!Padding::NoPadding.padding());
}

#[test]
fn error_messages() {
    assert_eq!(SeiError::IncorrectLength(1, 2).message(), "IncorrectLength");
    assert_eq!(SeiError::UnreadableFile.message(), "UnreadableFile");
    assert_eq!(SeiError::InvalidVersion.message(), "InvalidVersion");
    assert!(SeiError::NoPadding.message().contains("not supported"));
}
