//! Quantization presets for collections.
//!
//! Floating-point settings are carried as their IEEE-754 bit pattern
//! (`f32::to_bits`), so that the presets stay plain integer data.
use vstd::prelude::*;

verus! {

/// Element type of scalar quantization.
#[derive(Debug, Clone, Copy, PartialEq, Eq, Structural)]
pub enum ScalarType {
    Int8,
}

/// Compression ratios available for product quantization.
#[derive(Debug, Clone, Copy, PartialEq, Eq, Structural)]
pub enum CompressionRatio {
    X4,
    X8,
    X16,
    X32,
    X64,
}

/// How stored vectors are encoded by binary quantization.
#[derive(Debug, Clone, Copy, PartialEq, Eq, Structural)]
pub enum BinaryQuantizationEncoding {
    OneBit,
    TwoBits,
    OneAndHalfBits,
}

/// How query vectors are encoded by binary quantization.
#[derive(Debug, Clone, Copy, PartialEq, Eq, Structural)]
pub enum BinaryQuantizationQueryEncoding {
    Default,
    Binary,
    Scalar4Bits,
    Scalar8Bits,
}

/// Scalar quantization parameters.
#[derive(Debug, Clone, Copy, PartialEq, Eq, Structural)]
pub struct ScalarQuantizationConfig {
    pub scalar_type: ScalarType,
    /// Bit pattern (`f32::to_bits`) of the quantile, if one is set.
    pub quantile: Option<u32>,
    pub always_ram: Option<bool>,
}

#[derive(Debug, Clone, Copy, PartialEq, Eq, Structural)]
pub struct ScalarQuantization {
    pub scalar: ScalarQuantizationConfig,
}

/// Product quantization parameters.
#[derive(Debug, Clone, Copy, PartialEq, Eq, Structural)]
pub struct ProductQuantizationConfig {
    pub compression: CompressionRatio,
    pub always_ram: Option<bool>,
}

#[derive(Debug, Clone, Copy, PartialEq, Eq, Structural)]
pub struct ProductQuantization {
    pub product: ProductQuantizationConfig,
}

/// Binary quantization parameters.
#[derive(Debug, Clone, Copy, PartialEq, Eq, Structural)]
pub struct BinaryQuantizationConfig {
    pub always_ram: Option<bool>,
    pub encoding: Option<BinaryQuantizationEncoding>,
    pub query_encoding: Option<BinaryQuantizationQueryEncoding>,
}

#[derive(Debug, Clone, Copy, PartialEq, Eq, Structural)]
pub struct BinaryQuantization {
    pub binary: BinaryQuantizationConfig,
}

/// A quantization setting of a collection.
#[derive(Debug, Clone, Copy, PartialEq, Eq, Structural)]
pub enum QuantizationConfig {
    Scalar(ScalarQuantization),
    Product(ProductQuantization),
    Binary(BinaryQuantization),
}

/// The scalar preset: 8-bit scalar quantization with the given quantile and RAM policy.
pub open spec fn scalar_preset(quantile: Option<u32>, always_ram: Option<bool>) -> QuantizationConfig {
    QuantizationConfig::Scalar(
        ScalarQuantization {
            scalar: ScalarQuantizationConfig { scalar_type: ScalarType::Int8, quantile, always_ram },
        },
    )
}

/// The product preset with the given compression ratio and RAM policy.
pub open spec fn product_preset(compression: CompressionRatio, always_ram: Option<bool>) -> QuantizationConfig {
    QuantizationConfig::Product(
        ProductQuantization { product: ProductQuantizationConfig { compression, always_ram } },
    )
}

/// The binary preset with the given RAM policy and encodings.
pub open spec fn binary_preset(
    always_ram: Option<bool>,
    encoding: Option<BinaryQuantizationEncoding>,
    query_encoding: Option<BinaryQuantizationQueryEncoding>,
) -> QuantizationConfig {
    QuantizationConfig::Binary(
        BinaryQuantization { binary: BinaryQuantizationConfig { always_ram, encoding, query_encoding } },
    )
}

/// Scalar quantization to 8-bit integers.
///
/// `quantile` is the bit pattern (`f32::to_bits`) of the quantile, if any;
/// `always_ram` keeps the quantized data in RAM.
pub fn scalar_quantization(quantile: Option<u32>, always_ram: Option<bool>) -> (res: QuantizationConfig)
    ensures
        res == scalar_preset(quantile, always_ram),
        res matches QuantizationConfig::Scalar(sq) && sq.scalar.scalar_type == ScalarType::Int8
            && sq.scalar.quantile == quantile && sq.scalar.always_ram == always_ram,
{
    QuantizationConfig::Scalar(
        ScalarQuantization {
            scalar: ScalarQuantizationConfig { scalar_type: ScalarType::Int8, quantile, always_ram },
        },
    )
}

/// Product quantization with the given compression ratio.
pub fn product_quantization(compression: CompressionRatio, always_ram: Option<bool>) -> (res: QuantizationConfig)
    ensures
        res == product_preset(compression, always_ram),
        res matches QuantizationConfig::Product(pq) && pq.product.compression == compression
            && pq.product.always_ram == always_ram,
{
    QuantizationConfig::Product(
        ProductQuantization { product: ProductQuantizationConfig { compression, always_ram } },
    )
}

/// Binary quantization (one bit per dimension) with no explicit encodings.
pub fn binary_quantization(always_ram: Option<bool>) -> (res: QuantizationConfig)
    ensures
        res == binary_preset(always_ram, None, None),
        res matches QuantizationConfig::Binary(bq) && bq.binary.always_ram == always_ram
            && bq.binary.encoding is None && bq.binary.query_encoding is None,
{
    QuantizationConfig::Binary(
        BinaryQuantization {
            binary: BinaryQuantizationConfig { always_ram, encoding: None, query_encoding: None },
        },
    )
}

/// Binary quantization with explicit stored and query encodings.
pub fn binary_quantization_with_encoding(
    always_ram: Option<bool>,
    encoding: Option<BinaryQuantizationEncoding>,
    query_encoding: Option<BinaryQuantizationQueryEncoding>,
) -> (res: QuantizationConfig)
    ensures
        res == binary_preset(always_ram, encoding, query_encoding),
        res matches QuantizationConfig::Binary(bq) && bq.binary.always_ram == always_ram
            && bq.binary.encoding == encoding && bq.binary.query_encoding == query_encoding,
{
    QuantizationConfig::Binary(
        BinaryQuantization { binary: BinaryQuantizationConfig { always_ram, encoding, query_encoding } },
    )
}

/// The default scalar preset: no quantile and no RAM policy.
pub fn default_scalar_quantization() -> (res: QuantizationConfig)
    ensures
        res == scalar_preset(None, None),
        res matches QuantizationConfig::Scalar(sq) && sq.scalar.scalar_type == ScalarType::Int8
            && sq.scalar.quantile is None && sq.scalar.always_ram is None,
{
    scalar_quantization(None, None)
}

/// The default product preset: 8x compression and no RAM policy.
pub fn default_product_quantization() -> (res: QuantizationConfig)
    ensures
        res == product_preset(CompressionRatio::X8, None),
        res matches QuantizationConfig::Product(pq) && pq.product.compression == CompressionRatio::X8
            && pq.product.always_ram is None,
{
    product_quantization(CompressionRatio::X8, None)
}

/// The default binary preset: no RAM policy and no explicit encodings.
pub fn default_binary_quantization() -> (res: QuantizationConfig)
    ensures
        res == binary_preset(None, None, None),
        res matches QuantizationConfig::Binary(bq) && bq.binary.always_ram is None
            && bq.binary.encoding is None && bq.binary.query_encoding is None,
{
    binary_quantization(None)
}

/// Every preset keeps the arguments it was built from: the parameters read back
/// from a preset are the ones handed in, and two presets of one kind are equal
/// exactly when their arguments are.
pub proof fn lemma_presets_keep_arguments(
    q1: Option<u32>,
    q2: Option<u32>,
    r1: Option<bool>,
    r2: Option<bool>,
    c1: CompressionRatio,
    c2: CompressionRatio,
    e1: Option<BinaryQuantizationEncoding>,
    e2: Option<BinaryQuantizationEncoding>,
    qe1: Option<BinaryQuantizationQueryEncoding>,
    qe2: Option<BinaryQuantizationQueryEncoding>,
)
    ensures
        (scalar_preset(q1, r1) == scalar_preset(q2, r2)) <==> (q1 == q2 && r1 == r2),
        (product_preset(c1, r1) == product_preset(c2, r2)) <==> (c1 == c2 && r1 == r2),
        (binary_preset(r1, e1, qe1) == binary_preset(r2, e2, qe2)) <==> (r1 == r2 && e1 == e2
            && qe1 == qe2),
        scalar_preset(q1, r1) != product_preset(c1, r2),
        scalar_preset(q1, r1) != binary_preset(r2, e1, qe1),
        product_preset(c1, r1) != binary_preset(r2, e1, qe1),
{
}

/// Each preset is of its own kind and holds exactly the arguments it was built from:
/// the scalar preset is 8-bit with the given quantile and RAM policy, the product
/// preset has the requested compression ratio and RAM policy, and the binary preset
/// has the given RAM policy and encodings.
pub proof fn lemma_presets_hold_their_arguments(
    quantile: Option<u32>,
    always_ram: Option<bool>,
    compression: CompressionRatio,
    encoding: Option<BinaryQuantizationEncoding>,
    query_encoding: Option<BinaryQuantizationQueryEncoding>,
)
    ensures
        scalar_preset(quantile, always_ram) matches QuantizationConfig::Scalar(sq)
            && sq.scalar.scalar_type == ScalarType::Int8 && sq.scalar.quantile == quantile
            && sq.scalar.always_ram == always_ram,
        product_preset(compression, always_ram) matches QuantizationConfig::Product(pq)
            && pq.product.compression == compression && pq.product.always_ram == always_ram,
        binary_preset(always_ram, encoding, query_encoding) matches QuantizationConfig::Binary(bq)
            && bq.binary.always_ram == always_ram && bq.binary.encoding == encoding
            && bq.binary.query_encoding == query_encoding,
{
}

} // verus!
