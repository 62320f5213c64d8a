//! Which exceptions are not worth a report: those whose class name holds
//! the name of a class or package known to be noisy.

use aho_corasick::{AcAutomaton, Automaton, Dense};
use vstd::prelude::*;
use vstd::utf8::encode_utf8;

verus! {

/// `aho_corasick::Dense`, the automaton's default way of storing its
/// transitions. Nothing is known of its inside.
#[verifier::external_type_specification]
#[verifier::external_body]
pub struct ExDense(Dense);

/// `aho_corasick::AcAutomaton`, the matcher itself. Nothing is known of
/// its inside but the patterns it was built from.
#[verifier::external_type_specification]
#[verifier::external_body]
#[verifier::reject_recursive_types(P)]
#[verifier::reject_recursive_types(T)]
pub struct ExAcAutomaton<P, T>(AcAutomaton<P, T>);

/// The patterns that an automaton was built from, each as its bytes, in
/// the order in which they were given.
pub uninterp spec fn automaton_patterns(automaton: AcAutomaton<String, Dense>) -> Seq<Seq<u8>>;

/// Whether `pattern` is not empty and stands somewhere in `text`.
pub open spec fn occurs_in(pattern: Seq<u8>, text: Seq<u8>) -> bool {
    pattern.len() > 0 && exists|at: int|
        0 <= at && at + pattern.len() <= text.len() && #[trigger] text.subrange(
            at,
            at + pattern.len(),
        ) == pattern
}

/// Whether one of the patterns is not empty and stands somewhere in
/// `text`.
pub open spec fn any_occurs_in(patterns: Seq<Seq<u8>>, text: Seq<u8>) -> bool {
    exists|i: int| 0 <= i < patterns.len() && occurs_in(#[trigger] patterns[i], text)
}

/// The patterns of a list of strings as bytes.
pub open spec fn pattern_bytes(patterns: Seq<String>) -> Seq<Seq<u8>> {
    Seq::new(patterns.len(), |i: int| encode_utf8(patterns[i]@))
}

/// Builds a matcher with `aho_corasick::AcAutomaton::new`. The automaton
/// keeps the patterns it is given, in their order.
#[verifier::external_body]
fn build_automaton(patterns: Vec<String>) -> (automaton: AcAutomaton<String, Dense>)
    ensures
        automaton_patterns(automaton) == pattern_bytes(patterns@),
{
    AcAutomaton::new(patterns)
}

/// Asks `aho_corasick::Automaton::find` for the first match in `text`.
/// There is one exactly when some pattern that is not empty occurs in the
/// text, byte for byte; the automaton passes over empty patterns.
#[verifier::external_body]
fn finds_match(automaton: &AcAutomaton<String, Dense>, text: &str) -> (found: bool)
    ensures
        found == any_occurs_in(automaton_patterns(*automaton), encode_utf8(text@)),
{
    automaton.find(text).next().is_some()
}

/// The names of the classes and packages whose exceptions are passed
/// over.
pub open spec fn ignored_names() -> Seq<Seq<char>> {
    seq![
        "com.sun.org"@,
        "javax.naming."@,
        "java.io.EOFException"@,
        "java.io.FileNotFoundException"@,
        "java.io.IOException"@,
        "java.lang.ArrayIndexOutOfBoundsException"@,
        "java.lang.ClassNotFoundException"@,
        "java.lang.IllegalStateException"@,
        "java.lang.InterruptedException"@,
        "java.lang.NoSuchFieldError"@,
        "java.lang.NoSuchFieldException"@,
        "java.lang.NoSuchMethodException"@,
        "java.net.MalformedURLException"@,
        "java.net.SocketException"@,
        "java.security.cert.CertificateParsingException"@,
        "java.security.PrivilegedActionException"@,
        "java.security.SignatureException"@,
        "java.util.zip.ZipException"@,
        "javax.crypto.BadPaddingException"@,
    ]
}

/// Whether an exception of the given class is passed over: its class name
/// holds one of the ignored names.
pub open spec fn is_ignored(class: Seq<char>) -> bool {
    any_occurs_in(
        Seq::new(ignored_names().len(), |i: int| encode_utf8(ignored_names()[i])),
        encode_utf8(class),
    )
}

/// The names of the classes and packages whose exceptions are passed
/// over.
pub fn ignored_patterns() -> (patterns: Vec<String>)
    ensures
        patterns.deep_view() == ignored_names(),
{
    let mut patterns: Vec<String> = Vec::new();
    patterns.push("com.sun.org".to_owned());
    patterns.push("javax.naming.".to_owned());
    patterns.push("java.io.EOFException".to_owned());
    patterns.push("java.io.FileNotFoundException".to_owned());
    patterns.push("java.io.IOException".to_owned());
    patterns.push("java.lang.ArrayIndexOutOfBoundsException".to_owned());
    patterns.push("java.lang.ClassNotFoundException".to_owned());
    patterns.push("java.lang.IllegalStateException".to_owned());
    patterns.push("java.lang.InterruptedException".to_owned());
    patterns.push("java.lang.NoSuchFieldError".to_owned());
    patterns.push("java.lang.NoSuchFieldException".to_owned());
    patterns.push("java.lang.NoSuchMethodException".to_owned());
    patterns.push("java.net.MalformedURLException".to_owned());
    patterns.push("java.net.SocketException".to_owned());
    patterns.push("java.security.cert.CertificateParsingException".to_owned());
    patterns.push("java.security.PrivilegedActionException".to_owned());
    patterns.push("java.security.SignatureException".to_owned());
    patterns.push("java.util.zip.ZipException".to_owned());
    patterns.push("javax.crypto.BadPaddingException".to_owned());
    patterns
}

/// A matcher for the ignored names, built once and asked many times.
pub struct ClassFilter {
    automaton: AcAutomaton<String, Dense>,
}

impl ClassFilter {
    /// The matcher looks for the ignored names and nothing else.
    pub closed spec fn wf(&self) -> bool {
        automaton_patterns(self.automaton) == Seq::new(
            ignored_names().len(),
            |i: int| encode_utf8(ignored_names()[i]),
        )
    }

    /// A matcher for the ignored names.
    pub fn new() -> (filter: Self)
        ensures
            filter.wf(),
    {
        let patterns = ignored_patterns();
        assert(pattern_bytes(patterns@) =~= Seq::new(
            ignored_names().len(),
            |i: int| encode_utf8(ignored_names()[i]),
        ));
        ClassFilter { automaton: build_automaton(patterns) }
    }

    /// Whether an exception of the given class is passed over.
    pub fn should_ignore(&self, class: &str) -> (ignored: bool)
        requires
            self.wf(),
        ensures
            ignored == is_ignored(class@),
    {
        finds_match(&self.automaton, class)
    }
}

/// Whether an exception of the given class is passed over.
pub fn should_ignore(class: &str) -> (ignored: bool)
    ensures
        ignored == is_ignored(class@),
{
    ClassFilter::new().should_ignore(class)
}

} // verus!
