pub mod auto_trigger;
pub mod checkpoint;
pub mod debate;
pub mod decision_memory;
pub mod dimensions;
pub mod engine;
pub mod llm;
pub mod peg;
pub mod quality_gate;
pub mod schemas;
