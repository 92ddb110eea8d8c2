use sei::error::SeiError;
use sei::header::SeiHeader;
use sei::raw_sei::RawSei;
use sei::settings::{BitDepth, Padding, SeiSettings, StackingMode};

fn header(width: u16, height: u16, settings: SeiSettings) -> SeiHeader {
    SeiHeader {
        version: 1,
        data_offset: 0x0A,
        width,
        height,
        settings,
        z_index: 0,
    }
}

fn image(width: u16, height: u16, settings: u8, data: &[u8]) -> Vec<u8> {
    let mut bytes = vec![
        b'S',
        b'E',
        1,
        0x0A,
        (width & 0xff) as u8,
        (width >> 8) as u8,
        (height & 0xff) as u8,
        (height >> 8) as u8,
        settings,
        0,
    ];
    bytes.extend_from_slice(data);
    bytes
}

#[test]
fn test_1bit_sei() {
    let bytes = &[
        b'S',
        b'E', // Magic bytes
        1,    // Version
        0x0A, // Data offset
        8,    // Width
        0,
        2, // Height
        0,
        0b0010_0100, // Settings
        5,           // Z index
        0b10101010,  // Img data
        0b01010101,  // Img data
    ];
    let sei = RawSei::parse(bytes).unwrap();

    assert_eq!(
        sei.header,
        SeiHeader {
            version: 1,
            data_offset: 0x0A,
            settings: SeiSettings {
                bit_depth: BitDepth::OneBit,
                invert: true,
                padding: Padding::Padding,
                stacking_mode: StackingMode::BlackTransparent,
                ..Default::default()
            },
            width: 8,
            height: 2,
            z_index: 5,
        }
    );

    assert_eq!(sei.img_data, &[0b10101010, 0b01010101]);
}

#[test]
fn data_width() {
    let raw = RawSei {
        header: header(
            11,
            2,
            SeiSettings {
                bit_depth: BitDepth::OneBit,
                ..Default::default()
            },
        ),
        img_data: &[0b10101010, 0b0101010],
    };

    assert_eq!(raw.data_width(), 16);

    let raw = RawSei {
        header: header(
            11,
            2,
            SeiSettings {
                bit_depth: BitDepth::TwoBits,
                ..Default::default()
            },
        ),
        img_data: &[
            0b10101010, 0b01010101, 0b01010100, 0b01010101, 0b01010101, 0b01010100,
        ],
    };

    assert_eq!(raw.data_width(), 12);
}

#[test]
fn nine_bytes_are_unreadable() {
    let bytes = [b'S', b'E', 1, 0x0A, 8, 0, 2, 0, 0];
    assert_eq!(RawSei::parse(&bytes), Err(SeiError::UnreadableFile));
}

#[test]
fn empty_buffer_is_unreadable() {
    assert_eq!(RawSei::parse(&[]), Err(SeiError::UnreadableFile));
}

#[test]
fn wrong_magic_bytes() {
    let mut bytes = image(8, 1, 0, &[0xff]);
    bytes[1] = b'F';
    assert_eq!(RawSei::parse(&bytes), Err(SeiError::IncorrectMagicBytes));
}

#[test]
fn pixel_data_one_byte_short() {
    // 11 pixels a row take 2 bytes; 3 rows take 6.
    let bytes = image(11, 3, 0, &[0, 0, 0, 0, 0]);
    assert_eq!(RawSei::parse(&bytes), Err(SeiError::IncorrectLength(5, 6)));
}

#[test]
fn pixel_data_too_long() {
    let bytes = image(8, 2, 0, &[0, 0, 0]);
    assert_eq!(RawSei::parse(&bytes), Err(SeiError::IncorrectLength(3, 2)));
}

#[test]
fn unaligned_width_needs_rounded_rows() {
    // 11 * 2 bits would fit in 3 bytes, but each row is rounded up to 2 bytes.
    let bytes = image(11, 2, 0, &[0, 0, 0]);
    assert_eq!(RawSei::parse(&bytes), Err(SeiError::IncorrectLength(3, 4)));
}

#[test]
fn data_offset_past_the_end() {
    let mut bytes = image(0, 0, 0, &[]);
    bytes[3] = 11;
    assert_eq!(RawSei::parse(&bytes), Err(SeiError::InvalidDataOffset));
}

#[test]
fn data_offset_inside_the_header() {
    // An empty image whose data region starts at the end of the buffer.
    let mut bytes = image(0, 0, 0, &[]);
    bytes[3] = 10;
    let raw = RawSei::parse(&bytes).unwrap();
    assert_eq!(raw.img_data.len(), 0);
    // A data offset of 8 leaves two bytes, which two rows of 8 pixels fill.
    let mut bytes = image(8, 2, 0, &[]);
    bytes[3] = 8;
    let raw = RawSei::parse(&bytes).unwrap();
    assert_eq!(raw.img_data, &[0, 0]);
}

#[test]
fn settings_errors_come_through() {
    assert_eq!(
        RawSei::parse(&image(8, 1, 0b0000_0001, &[0])),
        Err(SeiError::UnsupportedBitDepth)
    );
    assert_eq!(
        RawSei::parse(&image(8, 1, 0b0011_0000, &[0])),
        Err(SeiError::UnsupportedTransparency)
    );
    assert_eq!(
        RawSei::parse(&image(8, 1, 0b0000_1000, &[0])),
        Err(SeiError::NoPadding)
    );
}

#[test]
fn settings_error_comes_before_offset_check() {
    let mut bytes = image(8, 1, 0b0000_0010, &[0]);
    bytes[3] = 200;
    assert_eq!(RawSei::parse(&bytes), Err(SeiError::UnsupportedBitDepth));
}

#[test]
fn little_endian_dimensions() {
    let data = vec![0u8; 33 * 2];
    let bytes = image(258, 2, 0, &data);
    let raw = RawSei::parse(&bytes).unwrap();
    assert_eq!(raw.width(), 258);
    assert_eq!(raw.height(), 2);
    assert_eq!(raw.header.width, 258);
    assert_eq!(raw.data_width(), 33 * 8);
}

#[test]
fn stride_matches_pixel_data() {
    let data = [0u8; 6];
    let bytes = image(11, 3, 0, &data);
    let raw = RawSei::parse(&bytes).unwrap();
    assert_eq!(raw.data_width(), 16);
    let stride = (raw.data_width() * raw.bit_depth() / 8) as usize;
    assert_eq!(stride * raw.height() as usize, raw.img_data.len());
    assert_eq!(raw.pixels_per_byte(), 8);
    assert_eq!(raw.bit_depth(), 1);
}

#[test]
fn parsing_twice_gives_equal_headers() {
    let bytes = image(11, 2, 0b0001_0100, &[1, 2, 3, 4]);
    let first = RawSei::parse(&bytes).unwrap();
    let second = RawSei::parse(&bytes).unwrap();
    assert_eq!(first.header, second.header);
    assert_eq!(first.img_data, second.img_data);
}

#[test]
fn header_geometry() {
    let one = header(11, 2, SeiSettings::default());
    assert_eq!(one.bit_depth(), 1);
    assert_eq!(one.pixels_per_byte(), 8);
    assert_eq!(one.data_width(), 16);
    let four = header(
        3,
        1,
        SeiSettings {
            bit_depth: BitDepth::FourBits,
            ..Default::default()
        },
    );
    assert_eq!(four.bit_depth(), 4);
    assert_eq!(four.pixels_per_byte(), 2);
    assert_eq!(four.data_width(), 4);
    let unpadded = header(
        11,
        2,
        SeiSettings {
            padding: Padding::NoPadding,
            ..Default::default()
        },
    );
    assert_eq!(unpadded.data_width(), 11);
}

#[test]
fn widest_image_geometry() {
    let widest = header(u16::MAX, 1, SeiSettings::default());
    assert_eq!(widest.data_width(), 8192 * 8);
    let four = header(
        u16::MAX,
        1,
        SeiSettings {
            bit_depth: BitDepth::FourBits,
            ..Default::default()
        },
    );
    assert_eq!(four.data_width(), 32768 * 2);
}
