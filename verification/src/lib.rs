//! An embedded vector-database front end: configuration and its builder, the
//! start-up plan of the storage engine, quantization presets, and the plans by
//! which the client operations reach the storage engine.
pub mod config;
pub mod conversions;
pub mod error;
pub mod operations;
pub mod startup;

pub use config::{ConfigSetting, EmbeddedConfig, EmbeddedConfigBuilder, OptimizersConfig};
pub use conversions::{
    binary_quantization, binary_quantization_with_encoding, default_binary_quantization,
    default_product_quantization, default_scalar_quantization, product_quantization,
    scalar_quantization, BinaryQuantization, BinaryQuantizationConfig, BinaryQuantizationEncoding,
    BinaryQuantizationQueryEncoding, CompressionRatio, ProductQuantization,
    ProductQuantizationConfig, QuantizationConfig, ScalarQuantization, ScalarQuantizationConfig,
    ScalarType,
};
pub use error::EmbeddedError;
