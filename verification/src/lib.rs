//! Data-model validation, SQL schema calculation and the decision core of
//! query execution, each with its contract.

pub mod ast;
pub mod backend;
pub mod calculator;
pub mod datamodel;
pub mod error;
pub mod executor;
pub mod links;
pub mod lowering;
pub mod query_builder;
pub mod read_ast;
pub mod read_builder;
pub mod read_executor;
pub mod relation;
pub mod resolver;
pub mod seqs;
pub mod sorting;
pub mod sql;
pub mod sql_schema;
pub mod text;
pub mod transaction;
pub mod validator;
pub mod values;
pub mod write_ast;
pub mod write_engine;
pub mod write_plan;
