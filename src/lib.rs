//! Literal find-and-replace that carries each rule over to the case variants
//! (PascalCase, kebab-case, camelCase, SCREAMING_SNAKE_CASE, snake_case) of
//! its words, applied to text, file names and directory trees.
pub mod text;
pub mod case;
pub mod args;
pub mod replacer;
pub mod copier;
pub mod scanner;
