//! Primitive MQTT value types.

pub mod binary;
pub mod qos;
pub mod reason_code;
pub mod string;
pub mod var_byte_int;

pub use binary::MqttBinary;
pub use qos::QoS;
pub use reason_code::ReasonCode;
pub use string::MqttString;
pub use var_byte_int::VarByteInt;
