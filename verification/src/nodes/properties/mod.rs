//! Typed views over the engine's untyped (handle, index) property space:
//! one proxy type per value category. Each proxy is an address, not a
//! cache — every read and write goes to the engine, which enforces range
//! and type validity; the boolean and enumerated views add their own
//! validation of the raw integer they travel through.

pub mod bool_property;
pub mod buffer_property;
pub mod distance_model_property;
pub mod double_property;
pub mod float3_property;
pub mod float6_property;
pub mod float_property;
pub mod int_property;
pub mod node_state_property;
pub mod panning_strategy_property;

pub use self::bool_property::BoolProperty;
pub use self::buffer_property::BufferProperty;
pub use self::distance_model_property::DistanceModel;
pub use self::distance_model_property::DistanceModelProperty;
pub use self::double_property::DoubleProperty;
pub use self::float3_property::Float3Property;
pub use self::float6_property::Float6Property;
pub use self::float_property::FloatProperty;
pub use self::int_property::IntProperty;
pub use self::node_state_property::NodeState;
pub use self::node_state_property::NodeStateProperty;
pub use self::panning_strategy_property::PanningStrategy;
pub use self::panning_strategy_property::PanningStrategyProperty;
