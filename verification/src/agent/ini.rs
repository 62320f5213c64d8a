//! Settings files in INI form, read into sections of named values.

use ini::Ini;
use vstd::prelude::*;

verus! {

/// One section of an INI document with its properties in file order.
#[derive(Debug)]
pub struct IniSection {
    /// The section's name; `None` for what stands before the first header.
    pub name: Option<String>,
    /// The properties as pairs of name and value.
    pub properties: Vec<(String, String)>,
}

/// A section with its texts as sequences of characters.
pub struct IniSectionView {
    pub name: Option<Seq<char>>,
    pub properties: Seq<(Seq<char>, Seq<char>)>,
}

impl DeepView for IniSection {
    type V = IniSectionView;

    open spec fn deep_view(&self) -> IniSectionView {
        IniSectionView { name: self.name.deep_view(), properties: self.properties.deep_view() }
    }
}

/// The sections that the INI reader makes of a text, in its order, or
/// nothing for a text that it rejects.
pub uninterp spec fn ini_document(text: Seq<char>) -> Option<Seq<IniSectionView>>;

/// Reads an INI document with `ini::Ini::load_from_str` and copies out
/// what `Ini::iter` and `Properties::iter` walk over: every section with
/// its name and its pairs of name and value, in the reader's order. The
/// result is `None` exactly when the reader returns an error. What the
/// reader makes of a text is not stated here, only that it depends on the
/// text alone.
#[verifier::external_body]
pub(crate) fn read_ini(text: &str) -> (sections: Option<Vec<IniSection>>)
    ensures
        sections.deep_view() == ini_document(text@),
{
    match Ini::load_from_str(text) {
        Ok(document) => Some(
            document.iter().map(
                |(name, properties)|
                    IniSection {
                        name: name.map(|n| n.to_owned()),
                        properties: properties.iter().map(
                            |(k, v)| (k.to_owned(), v.to_owned()),
                        ).collect(),
                    },
            ).collect(),
        ),
        Err(_) => None,
    }
}

} // verus!
