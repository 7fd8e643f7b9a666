//! Expression parsing core and program assembly for a constraint-oriented
//! language front end.
//!
//! Tokens are classified by [`TokenKind`]; each kind has a binding strength
//! ([`Precedence`]) and may carry a begin-expression or continue-expression
//! capability in a [`Registry`]. The [`Parser`] runs precedence climbing over
//! a token sequence, and [`Program`] collects statements and classified
//! function definitions.

mod ast;
mod parser;
mod precedence;
mod program;
mod registry;
mod token;

pub use ast::{Expression, FunctionDefinition, Parameter, Statement};
pub use parser::{
    begin_at, climb, continue_at, is_operand, kind_at, lemma_left_assoc_chain, lemma_single_operand,
    operand, parse_from, ParseError, Parser,
};
pub use precedence::{compare_levels, precedence_of, Precedence};
pub use program::{
    abi_of, constraint_pushed, directive_pushed, is_entry_name, lemma_directive_destinations,
    lemma_empty_has_no_abi, lemma_entry_last_write_wins, parameter_names, string_views, Program,
    MAIN_FUNCTION,
};
pub use registry::{usual_begin, usual_continue, InfixRule, PrefixRule, Registry, KIND_COUNT};
pub use token::{Token, TokenKind};
