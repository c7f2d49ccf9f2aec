//! A small, embeddable type-description model: a runtime representation of
//! the shape of data and function types (integers, structs, enumerations,
//! arrays, functions), built through a validating builder and traversed
//! through a visitor with one handler per kind.

pub mod dynamic;
pub mod types;

pub use dynamic::Dynamic;
pub use types::Array;
pub use types::ArrayBuilder;
pub use types::BuilderError;
pub use types::Enum;
pub use types::EnumBuilder;
pub use types::Field;
pub use types::Function;
pub use types::FunctionBuilder;
pub use types::IntBuilder;
pub use types::IntType;
pub use types::Parameter;
pub use types::Struct;
pub use types::StructBuilder;
pub use types::Type;
pub use types::TypeBuilder;
pub use types::TypeInfo;
pub use types::TypeKind;
pub use types::Variant;
pub use types::Visitor;
