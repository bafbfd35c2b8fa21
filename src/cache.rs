use vstd::prelude::*;
use resvg::usvg;
use crate::viewport::DocSize;

verus! {

#[verifier::external_type_specification]
#[verifier::external_body]
pub struct ExTree(usvg::Tree);

#[verifier::external_type_specification]
#[verifier::external_body]
pub struct ExOptions<'a>(usvg::Options<'a>);

/// A byte that UTF-8 text never holds.
pub open spec fn never_in_utf8(b: u8) -> bool {
    b == 0xC0 || b == 0xC1 || b >= 0xF5
}

/// The two bytes that open gzip-compressed data.
pub open spec fn gzip_magic(data: Seq<u8>) -> bool {
    data.len() >= 2 && data[0] == 0x1f && data[1] == 0x8b
}

/// Bytes that are neither gzip-compressed nor UTF-8 text, and so can hold
/// no document.
pub open spec fn plainly_malformed(data: Seq<u8>) -> bool {
    !gzip_magic(data) && exists|i: int| 0 <= i < data.len() && never_in_utf8(#[trigger] data[i])
}

/// Relies on usvg::Tree::from_data to parse SVG (or gzip-compressed SVG)
/// bytes; any parse error gives `None`. Data that does not open with the
/// gzip magic is first checked to be UTF-8, and refused when it is not.
#[verifier::external_body]
pub(crate) fn parse_tree(data: &[u8], opts: &usvg::Options) -> (r: Option<usvg::Tree>)
    ensures
        plainly_malformed(data@) ==> r.is_none(),
{
    usvg::Tree::from_data(data, opts).ok()
}

/// Relies on usvg::Tree::size and Size::to_int_size: the document size
/// rounded to whole units, each at least 1.
#[verifier::external_body]
fn tree_size(tree: &usvg::Tree) -> (r: DocSize)
    ensures
        r.wf(),
{
    let s = tree.size().to_int_size();
    DocSize { width: s.width(), height: s.height() }
}

/// A parsed document and its intrinsic size.
pub struct Document {
    pub tree: usvg::Tree,
    pub size: DocSize,
}

impl Document {
    pub open spec fn wf(&self) -> bool {
        self.size.wf()
    }

    /// The parsed scene, for painting.
    pub fn tree(&self) -> &usvg::Tree {
        &self.tree
    }

    /// The intrinsic size.
    pub fn size(&self) -> (r: DocSize)
        ensures
            r == self.size,
    {
        self.size
    }
}

/// The last document that was read and parsed successfully, if any.
pub struct DocumentCache {
    pub current: Option<Document>,
}

impl DocumentCache {
    pub open spec fn wf(&self) -> bool {
        match self.current {
            Some(d) => d.wf(),
            None => true,
        }
    }

    /// A cache holding no document.
    pub fn new() -> (r: Self)
        ensures
            r.wf(),
            r.current.is_none(),
    {
        DocumentCache { current: None }
    }

    /// Installs a parse result: a parsed tree replaces the cached document,
    /// while `None` (a failed parse) leaves the last good document in place.
    /// Returns whether it was replaced.
    pub fn install(&mut self, parsed: Option<usvg::Tree>) -> (r: bool)
        requires
            old(self).wf(),
        ensures
            final(self).wf(),
            r == parsed.is_some(),
            parsed.is_some() ==> final(self).current.is_some() && final(self).current.unwrap().tree
                == parsed.unwrap(),
            parsed.is_none() ==> final(self).current == old(self).current,
    {
        match parsed {
            None => false,
            Some(tree) => {
                let size = tree_size(&tree);
                self.current = Some(Document { tree, size });
                true
            },
        }
    }

    /// Parses `data` (`None` when the file could not be read) and installs
    /// the result. Returns whether the cached document was replaced; when it
    /// was not, the last good document stays.
    pub fn reload(&mut self, data: Option<Vec<u8>>, opts: &usvg::Options) -> (r: bool)
        requires
            old(self).wf(),
        ensures
            final(self).wf(),
            data.is_none() ==> !r,
            data.is_some() && plainly_malformed(data.unwrap()@) ==> !r,
            r ==> final(self).current.is_some(),
            !r ==> final(self).current == old(self).current,
    {
        match data {
            None => false,
            Some(bytes) => self.install(parse_tree(bytes.as_slice(), opts)),
        }
    }

    /// The cached document's size, if a document is cached.
    pub fn doc_size(&self) -> (r: Option<DocSize>)
        ensures
            r == match self.current {
                Some(d) => Some(d.size),
                None => None::<DocSize>,
            },
    {
        match &self.current {
            Some(d) => Some(d.size),
            None => None,
        }
    }
}

} // verus!
