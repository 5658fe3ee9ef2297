//! Input records and per-record results.
//!
//! A record is one line of text: the script hash in a field of fixed width, a
//! separator, and the hex-encoded payload. The widths belong to the input
//! format and are handed in as a [`RecordLayout`].

use crate::program::normalize;
use crate::registry::label_view;
use crate::registry::Registry;
use crate::text::strip_layout;
use vstd::prelude::*;
use vstd::string::StrSliceExecFns;

verus! {

/// One input record: the hash that names a script, and its payload.
#[derive(Debug, PartialEq, Eq)]
pub struct Script {
    /// The content hash of the script.
    pub hash: String,
    /// The hex text of the encoded program.
    pub encoded_bytecode: String,
}

/// A script as plain text.
pub struct ScriptView {
    pub hash: Seq<char>,
    pub encoded_bytecode: Seq<char>,
}

impl View for Script {
    type V = ScriptView;

    open spec fn view(&self) -> ScriptView {
        ScriptView { hash: self.hash@, encoded_bytecode: self.encoded_bytecode@ }
    }
}

/// What was found out about one script: its hash and its label, `None` for
/// unknown provenance.
#[derive(Debug, PartialEq, Eq)]
pub struct ClassificationResult {
    /// The hash of the script, as it was read.
    pub hash: String,
    /// The name of the compiler family, if a rule applied.
    pub label: Option<String>,
}

/// A result as plain text.
pub struct ResultView {
    pub hash: Seq<char>,
    pub label: Option<Seq<char>>,
}

impl View for ClassificationResult {
    type V = ResultView;

    open spec fn view(&self) -> ResultView {
        ResultView { hash: self.hash@, label: label_view(self.label) }
    }
}

/// Where the fields of a record stand, counted in characters.
#[derive(Clone, Copy, Debug, PartialEq, Eq)]
pub struct RecordLayout {
    /// The width of the hash field, which starts the record.
    pub hash_width: usize,
    /// The width of what separates the hash from the payload.
    pub separator_width: usize,
}

impl RecordLayout {
    /// The hash field of `row`: its first `hash_width` characters, or all of
    /// it where it is shorter.
    pub open spec fn hash_of(self, row: Seq<char>) -> Seq<char> {
        if row.len() <= self.hash_width {
            row
        } else {
            row.take(self.hash_width as int)
        }
    }

    /// The payload field of `row`: what follows the hash field and the
    /// separator, or nothing where the row ends before it.
    pub open spec fn payload_of(self, row: Seq<char>) -> Seq<char> {
        if row.len() <= self.hash_width + self.separator_width {
            Seq::empty()
        } else {
            row.skip(self.hash_width + self.separator_width)
        }
    }

    /// The layout of the observed input: a hash of 56 characters and one
    /// separating character.
    pub fn standard() -> (layout: RecordLayout)
        ensures
            layout.hash_width == 56,
            layout.separator_width == 1,
    {
        RecordLayout { hash_width: 56, separator_width: 1 }
    }

    /// Cuts `row` into its two fields. What stands in the separator's place
    /// is not looked at, and a short row gives short or empty fields.
    pub fn split(&self, row: &str) -> (script: Script)
        ensures
            script.hash@ == self.hash_of(row@),
            script.encoded_bytecode@ == self.payload_of(row@),
    {
        let len = row.unicode_len();
        let hash_end: usize = if self.hash_width < len {
            self.hash_width
        } else {
            len
        };
        let rest: usize = len - hash_end;
        let payload_start: usize = if self.separator_width < rest {
            hash_end + self.separator_width
        } else {
            len
        };
        let hash = row.substring_char(0, hash_end);
        let payload = row.substring_char(payload_start, len);
        proof {
            assert(row@.subrange(0, hash_end as int) =~= self.hash_of(row@));
            assert(row@.subrange(payload_start as int, len as int) =~= self.payload_of(row@));
        }
        Script { hash: hash.to_owned(), encoded_bytecode: payload.to_owned() }
    }
}

/// A payload that the program decoder could not make a program of.
#[derive(Debug, PartialEq, Eq)]
pub struct DecodeError {
    /// The decoder's own account of the failure.
    pub reason: String,
}

impl Registry {
    /// Labels `script` from what the program decoder made of its payload:
    /// the pretty-printed program, or the failure.
    ///
    /// A payload that did not decode is an error, also where the hash alone
    /// would have decided: unknown provenance is a result, an undecodable
    /// payload is not. The failure is handed on as it came.
    pub fn classify_script(&self, script: &Script, decoded: Result<String, DecodeError>) -> (r:
        Result<ClassificationResult, DecodeError>)
        ensures
            match decoded {
                Ok(pretty) => {
                    &&& r matches Ok(result)
                    &&& result@.hash == script@.hash
                    &&& result@.label == self@.label(script@.hash, strip_layout(pretty@))
                },
                Err(error) => r matches Err(same) && same == error,
            },
    {
        match decoded {
            Ok(pretty) => {
                let program = normalize(pretty.as_str());
                let label = self.classify(script.hash.as_str(), &program);
                Ok(ClassificationResult { hash: script.hash.clone(), label })
            },
            Err(error) => Err(error),
        }
    }
}

} // verus!
