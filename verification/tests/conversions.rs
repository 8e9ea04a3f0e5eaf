use qdrant_embedded::{
    binary_quantization, binary_quantization_with_encoding, default_binary_quantization,
    default_product_quantization, default_scalar_quantization, product_quantization,
    scalar_quantization, BinaryQuantizationEncoding, BinaryQuantizationQueryEncoding,
    CompressionRatio, QuantizationConfig, ScalarType,
};

#[test]
fn test_scalar_quantization() {
    let config = scalar_quantization(Some(0.99f32.to_bits()), Some(true));
    match config {
        QuantizationConfig::Scalar(sq) => {
            assert_eq!(sq.scalar.quantile.map(f32::from_bits), Some(0.99));
            assert_eq!(sq.scalar.always_ram, Some(true));
        }
        _ => panic!("Expected Scalar quantization"),
    }
}

#[test]
fn test_product_quantization() {
    let config = product_quantization(CompressionRatio::X16, Some(false));
    match config {
        QuantizationConfig::Product(pq) => {
            assert_eq!(pq.product.compression, CompressionRatio::X16);
            assert_eq!(pq.product.always_ram, Some(false));
        }
        _ => panic!("Expected Product quantization"),
    }
}

#[test]
fn test_binary_quantization() {
    let config = binary_quantization(Some(true));
    match config {
        QuantizationConfig::Binary(bq) => {
            assert_eq!(bq.binary.always_ram, Some(true));
        }
        _ => panic!("Expected Binary quantization"),
    }
}

#[test]
fn test_default_quantizations() {
    let _scalar = default_scalar_quantization();
    let _product = default_product_quantization();
    let _binary = default_binary_quantization();
}

#[test]
fn scalar_preset_is_int8() {
    match scalar_quantization(None, Some(false)) {
        QuantizationConfig::Scalar(sq) => {
            assert_eq!(sq.scalar.scalar_type, ScalarType::Int8);
            assert_eq!(sq.scalar.quantile, None);
            assert_eq!(sq.scalar.always_ram, Some(false));
        }
        _ => panic!("Expected Scalar quantization"),
    }
}

#[test]
fn defaults_equal_explicit_presets() {
    assert_eq!(default_scalar_quantization(), scalar_quantization(None, None));
    assert_eq!(default_product_quantization(), product_quantization(CompressionRatio::X8, None));
    assert_eq!(default_binary_quantization(), binary_quantization(None));
    assert_eq!(binary_quantization(Some(true)), binary_quantization_with_encoding(Some(true), None, None));
}

#[test]
fn binary_with_encoding_keeps_encodings() {
    let config = binary_quantization_with_encoding(
        Some(false),
        Some(BinaryQuantizationEncoding::TwoBits),
        Some(BinaryQuantizationQueryEncoding::Scalar8Bits),
    );
    match config {
        QuantizationConfig::Binary(bq) => {
            assert_eq!(bq.binary.always_ram, Some(false));
            assert_eq!(bq.binary.encoding, Some(BinaryQuantizationEncoding::TwoBits));
            assert_eq!(bq.binary.query_encoding, Some(BinaryQuantizationQueryEncoding::Scalar8Bits));
        }
        _ => panic!("Expected Binary quantization"),
    }
}

#[test]
fn presets_of_different_kinds_differ() {
    assert_ne!(default_scalar_quantization(), default_binary_quantization());
    assert_ne!(product_quantization(CompressionRatio::X4, None), product_quantization(CompressionRatio::X64, None));
}
