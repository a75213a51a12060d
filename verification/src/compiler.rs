//! The compiler entry: source text in, translated target text out, or a
//! structured error with a position and a message. A second entry,
//! `test_eval`, additionally executes the translated text in the bundled
//! evaluator and returns the captured standard output; the acceptance
//! tests go through it.

use vstd::prelude::*;
use crate::error::CompileError;
use crate::token::tokenize;
use crate::scope::SymbolTable;
use crate::registry::FunctionRegistry;
use crate::parser::{ParserState, Module, parse_program};
use crate::translate::{translate_program, join_lines};
use crate::interpreter::run_lines;
use crate::text::{str_to_chars, chars_to_string};

verus! {

pub struct AmberCompiler {
    pub code: String,
    pub path: Option<String>,
    pub modules: Vec<(String, String)>,
}

impl AmberCompiler {
    /// A compiler over one compilation unit. `path` only names the unit in
    /// diagnostics; the source itself arrives as text.
    pub fn new(code: String, path: Option<String>) -> (r: AmberCompiler)
        ensures
            r.code == code,
            r.path == path,
            r.modules@.len() == 0,
    {
        AmberCompiler { code, path, modules: Vec::new() }
    }

    /// Make a unit's source available to import statements under the given
    /// path. Resolving what a path means (files, caches) belongs to the
    /// embedder; the compiler only consumes the registered text.
    pub fn register_module(&mut self, path: &str, source: &str)
        ensures
            final(self).modules@.len() == old(self).modules@.len() + 1,
    {
        let p = String::from_str(path);
        let s = String::from_str(source);
        self.modules.push((p, s));
    }

    /// Parse and translate: the emitted program as lines of characters.
    fn compile_lines(&self) -> (r: Result<Vec<Vec<char>>, CompileError>)
        ensures
            self.code@.len() == 0 ==> (r matches Ok(ls) && ls@.len() == 0),
    {
        let chars = str_to_chars(self.code.as_str());
        let tokens = match tokenize(&chars) {
            Ok(t) => t,
            Err(e) => { return Err(e); }
        };
        let mut modules: Vec<Module> = Vec::new();
        let mut i: usize = 0;
        while i < self.modules.len()
            decreases self.modules@.len() - i,
        {
            let path = str_to_chars(self.modules[i].0.as_str());
            let source = str_to_chars(self.modules[i].1.as_str());
            modules.push(Module { path, source });
            i = i + 1;
        }
        let mut st = ParserState {
            scope: SymbolTable::new(),
            registry: FunctionRegistry::new(),
            modules,
        };
        let fuel: u64 = if tokens.len() > 90000 { 90000 } else { (tokens.len() + 64) as u64 };
        let block = match parse_program(&tokens, &mut st, fuel) {
            Ok(b) => b,
            Err(e) => { return Err(e); }
        };
        Ok(translate_program(&block, &st.registry, fuel))
    }

    /// Compile the unit to target-language text. The contract's minimum:
    /// the trivial unit compiles, to the empty program; nothing is produced
    /// on failure, since the result is the only output channel.
    pub fn compile(&self) -> (r: Result<String, CompileError>)
        ensures
            self.code@.len() == 0 ==> (r matches Ok(t) && t@.len() == 0),
    {
        match self.compile_lines() {
            Ok(lines) => {
                let joined = join_lines(&lines);
                Ok(chars_to_string(&joined))
            }
            Err(e) => Err(e),
        }
    }

    /// Compile, then execute the translated text in the bundled evaluator,
    /// returning the captured standard output. A compilation error leaves
    /// no output behind; the trivial unit runs and prints nothing.
    pub fn test_eval(&self) -> (r: Result<String, CompileError>)
        ensures
            self.code@.len() == 0 ==> (r matches Ok(t) && t@.len() == 0),
    {
        match self.compile_lines() {
            Ok(lines) => {
                match run_lines(&lines) {
                    Ok(out) => Ok(chars_to_string(&out)),
                    Err(e) => Err(e),
                }
            }
            Err(e) => Err(e),
        }
    }
}

} // verus!
