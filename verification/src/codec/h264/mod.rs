pub mod sequence_parameter_set;
