use vstd::prelude::*;
use vstd::string::*;
use crate::path::{ConfigPath, dotted_spec};

verus! {

/// What went wrong with one configuration field.
#[derive(Clone, Copy, Debug, PartialEq, Eq, Structural)]
pub enum ConfigErrorKind {
    /// A required field was absent.
    MissingField,
    /// A present value could not be converted to its target type.
    ParseFailure,
    /// An explicit type tag named no known backend kind.
    UnknownVariant,
    /// A local-storage path is not a directory, or could not be created.
    FilesystemViolation,
    /// A signer key could not be read as an address.
    AddressParseFailure,
}

/// The cause of a failure in words.
pub open spec fn kind_text(k: ConfigErrorKind) -> Seq<char> {
    match k {
        ConfigErrorKind::MissingField => "missing required field"@,
        ConfigErrorKind::ParseFailure => "value could not be parsed"@,
        ConfigErrorKind::UnknownVariant => "missing or unknown type"@,
        ConfigErrorKind::FilesystemViolation => "path is not a usable directory"@,
        ConfigErrorKind::AddressParseFailure => "key is not an address"@,
    }
}

impl ConfigErrorKind {
    /// The cause in words.
    pub fn describe(&self) -> (r: &'static str)
        ensures
            r@ == kind_text(*self),
    {
        match self {
            ConfigErrorKind::MissingField => "missing required field",
            ConfigErrorKind::ParseFailure => "value could not be parsed",
            ConfigErrorKind::UnknownVariant => "missing or unknown type",
            ConfigErrorKind::FilesystemViolation => "path is not a usable directory",
            ConfigErrorKind::AddressParseFailure => "key is not an address",
        }
    }
}

/// One line of a report: the dotted path, then the cause.
pub open spec fn line_spec(e: (Seq<Seq<char>>, ConfigErrorKind)) -> Seq<char> {
    dotted_spec(e.0) + ": "@ + kind_text(e.1)
}

/// One line per failure, separated by newlines.
pub open spec fn report_spec(errs: Seq<(Seq<Seq<char>>, ConfigErrorKind)>) -> Seq<char>
    decreases errs.len(),
{
    if errs.len() == 0 {
        Seq::empty()
    } else if errs.len() == 1 {
        line_spec(errs[0])
    } else {
        report_spec(errs.drop_last()) + "\n"@ + line_spec(errs.last())
    }
}

/// One field-level failure, labelled with where it was found.
#[derive(Debug)]
pub struct ConfigError {
    pub path: ConfigPath,
    pub kind: ConfigErrorKind,
}

impl View for ConfigError {
    type V = (Seq<Seq<char>>, ConfigErrorKind);

    open spec fn view(&self) -> (Seq<Seq<char>>, ConfigErrorKind) {
        (self.path@, self.kind)
    }
}

impl ConfigError {
    /// The error of kind `kind` at `base` extended by `field`.
    pub fn at(base: &ConfigPath, field: &str, kind: ConfigErrorKind) -> (r: ConfigError)
        ensures
            r@ == (base@.push(field@), kind),
    {
        ConfigError { path: base.join(field), kind }
    }

    /// The failure in words: `<dotted path>: <cause>`.
    pub fn message(&self) -> (r: String)
        ensures
            r@ == line_spec(self@),
    {
        let mut r = self.path.dotted();
        r.append(": ");
        r.append(self.kind.describe());
        r
    }
}

/// Every failure found while converting one document.
#[derive(Debug)]
pub struct ConfigParsingError {
    pub errors: Vec<ConfigError>,
}

impl View for ConfigParsingError {
    type V = Seq<(Seq<Seq<char>>, ConfigErrorKind)>;

    open spec fn view(&self) -> Seq<(Seq<Seq<char>>, ConfigErrorKind)> {
        self.errors@.map_values(|e: ConfigError| e@)
    }
}

impl ConfigParsingError {
    /// An accumulator that holds no failure.
    pub fn new() -> (r: ConfigParsingError)
        ensures
            r@ == Seq::<(Seq<Seq<char>>, ConfigErrorKind)>::empty(),
    {
        let r = ConfigParsingError { errors: Vec::new() };
        assert(r@ =~= Seq::<(Seq<Seq<char>>, ConfigErrorKind)>::empty());
        r
    }

    /// Records one more failure after those already held.
    pub fn push(&mut self, e: ConfigError)
        ensures
            final(self)@ == old(self)@.push(e@),
    {
        self.errors.push(e);
        assert(self@ =~= old(self)@.push(e@));
    }

    /// Records every failure of `other` after those already held.
    pub fn append(&mut self, other: ConfigParsingError)
        ensures
            final(self)@ == old(self)@ + other@,
    {
        let ghost moved = other@;
        let mut other = other;
        self.errors.append(&mut other.errors);
        assert(self@ =~= old(self)@ + moved);
    }

    /// Whether no failure was recorded.
    pub fn is_empty(&self) -> (r: bool)
        ensures
            r == (self@.len() == 0),
    {
        self.errors.len() == 0
    }

    /// Every failure in words, one per line, in the order recorded.
    pub fn report(&self) -> (r: String)
        ensures
            r@ == report_spec(self@),
    {
        let mut r = String::new();
        let mut i: usize = 0;
        while i < self.errors.len()
            invariant
                i <= self@.len(),
                self@.len() == self.errors@.len(),
                r@ == report_spec(self@.subrange(0, i as int)),
            decreases self@.len() - i,
        {
            assert(self@.subrange(0, i + 1).drop_last() =~= self@.subrange(0, i as int));
            assert(self@.subrange(0, i + 1).last() == self.errors@[i as int]@);
            if i > 0 {
                r.append("\n");
            }
            let line = self.errors[i].message();
            r.append(line.as_str());
            i = i + 1;
        }
        assert(self@.subrange(0, i as int) =~= self@);
        r
    }

    /// The number of failures recorded.
    pub fn len(&self) -> (r: usize)
        ensures
            r == self@.len(),
    {
        self.errors.len()
    }
}

} // verus!
