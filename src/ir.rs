/// Fused operations and constructors taking immediates.
pub mod make;
/// IR operators, condition codes and trap causes.
pub mod op;
/// Value types, storage of IR values and memory-operation encodings.
pub mod storage;
/// The per-block IR builder: value allocation, op list and chain points.
pub mod builder;
