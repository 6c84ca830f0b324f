use c3d_processor::{C3dParseError, Processor};

fn block_with_marker(marker: u8, fill: u8) -> [u8; 512] {
    let mut block: [u8; 512] = [fill; 512];
    block[3] = marker;
    block
}

#[test]
fn intel_marker_is_detected() {
    assert_eq!(
        Processor::from_parameter_start_block(block_with_marker(0x54, 0x00)),
        Ok(Processor::Intel)
    );
}

#[test]
fn dec_marker_is_detected() {
    assert_eq!(
        Processor::from_parameter_start_block(block_with_marker(0x55, 0x00)),
        Ok(Processor::Dec)
    );
}

#[test]
fn sgi_mips_marker_is_detected() {
    assert_eq!(
        Processor::from_parameter_start_block(block_with_marker(0x56, 0x00)),
        Ok(Processor::SgiMips)
    );
}

#[test]
fn detection_ignores_the_other_bytes() {
    for fill in 0..=u8::MAX {
        assert_eq!(
            Processor::from_parameter_start_block(block_with_marker(0x54, fill)),
            Ok(Processor::Intel)
        );
        assert_eq!(
            Processor::from_parameter_start_block(block_with_marker(0x55, fill)),
            Ok(Processor::Dec)
        );
        assert_eq!(
            Processor::from_parameter_start_block(block_with_marker(0x56, fill)),
            Ok(Processor::SgiMips)
        );
    }
}

#[test]
fn detection_reads_index_three_only() {
    // The three marker values at every index but 3, over a block that holds an
    // invalid marker: none of them is taken for the marker.
    for index in 0..512usize {
        if index == 3 {
            continue;
        }
        for marker in [0x54u8, 0x55u8, 0x56u8] {
            let mut block: [u8; 512] = [0x00; 512];
            block[index] = marker;
            assert_eq!(
                Processor::from_parameter_start_block(block),
                Err(C3dParseError::InvalidFormatMarker)
            );
        }
    }
}

#[test]
fn zero_marker_is_rejected() {
    assert_eq!(
        Processor::from_parameter_start_block(block_with_marker(0x00, 0x54)),
        Err(C3dParseError::InvalidFormatMarker)
    );
}

#[test]
fn all_ones_marker_is_rejected() {
    assert_eq!(
        Processor::from_parameter_start_block(block_with_marker(0xFF, 0x55)),
        Err(C3dParseError::InvalidFormatMarker)
    );
}

#[test]
fn markers_next_to_the_valid_ones_are_rejected() {
    assert_eq!(
        Processor::from_parameter_start_block(block_with_marker(0x53, 0x56)),
        Err(C3dParseError::InvalidFormatMarker)
    );
    assert_eq!(
        Processor::from_parameter_start_block(block_with_marker(0x57, 0x56)),
        Err(C3dParseError::InvalidFormatMarker)
    );
}

#[test]
fn every_marker_value_is_classified() {
    for marker in 0..=u8::MAX {
        let expected: Result<Processor, C3dParseError> = match marker {
            0x54 => Ok(Processor::Intel),
            0x55 => Ok(Processor::Dec),
            0x56 => Ok(Processor::SgiMips),
            _ => Err(C3dParseError::InvalidFormatMarker),
        };
        assert_eq!(
            Processor::from_parameter_start_block(block_with_marker(marker, 0xAA)),
            expected
        );
    }
}

#[test]
fn marker_constants_have_the_documented_values() {
    assert_eq!(c3d_processor::processor::INTEL_MARKER, 0x54);
    assert_eq!(c3d_processor::processor::DEC_MARKER, 0x55);
    assert_eq!(c3d_processor::processor::SGI_MIPS_MARKER, 0x56);
    assert_eq!(c3d_processor::processor::MARKER_INDEX, 3);
}

#[test]
fn the_default_format_is_intel() {
    assert_eq!(Processor::new(), Processor::Intel);
    assert_eq!(Processor::default(), Processor::Intel);
}

#[test]
fn formats_compare_by_case() {
    assert_eq!(Processor::Dec, Processor::Dec);
    assert_ne!(Processor::Dec, Processor::Intel);
    assert_ne!(Processor::Intel, Processor::SgiMips);
    assert_ne!(Processor::SgiMips, Processor::Dec);
    let copy: Processor = Processor::SgiMips;
    let same: Processor = copy;
    assert_eq!(copy, same);
}

#[test]
fn formats_have_their_labels() {
    assert_eq!(Processor::Intel.to_string(), "Intel");
    assert_eq!(Processor::Dec.to_string(), "DEC");
    assert_eq!(Processor::SgiMips.to_string(), "SGI MIPS");
}
