use vstd::prelude::*;

verus! {

/// The kinds of data file the scanner looks for.
#[derive(Clone, Copy, Debug, PartialEq, Eq, Structural)]
pub enum Category {
    Csv,
    Excel,
    Text,
    Json,
}

/// The code of `c` after ASCII lower-casing: `A`..`Z` become `a`..`z`, every
/// other character is kept.
pub open spec fn ascii_lower_code(c: char) -> int {
    if 'A' <= c && c <= 'Z' {
        c as u32 + 32
    } else {
        c as u32 as int
    }
}

/// `s` spells the lower-case ASCII word `word`, letter case ignored.
pub open spec fn spells(s: Seq<char>, word: Seq<char>) -> bool {
    &&& s.len() == word.len()
    &&& forall|i: int| 0 <= i < s.len() ==> ascii_lower_code(#[trigger] s[i]) == word[i] as u32
}

/// The category a file extension belongs to, letter case ignored.
pub open spec fn category_of_extension(ext: Seq<char>) -> Option<Category> {
    if spells(ext, seq!['c', 's', 'v']) {
        Some(Category::Csv)
    } else if spells(ext, seq!['x', 'l', 's', 'x']) || spells(ext, seq!['x', 'l', 's'])
        || spells(ext, seq!['x', 'l', 's', 'm']) || spells(ext, seq!['x', 'l', 's', 'b']) {
        Some(Category::Excel)
    } else if spells(ext, seq!['t', 'x', 't']) || spells(ext, seq!['m', 'd'])
        || spells(ext, seq!['l', 'o', 'g']) || spells(ext, seq!['r', 't', 'f']) {
        Some(Category::Text)
    } else if spells(ext, seq!['j', 's', 'o', 'n']) {
        Some(Category::Json)
    } else {
        None
    }
}

/// The extension of a path as `std::path::Path::extension` computes it, read as
/// text; empty where the path has none.
pub uninterp spec fn extension_of(path: Seq<char>) -> Seq<char>;

/// The category of the file at `path`, decided by its extension.
pub open spec fn category_of_path(path: Seq<char>) -> Option<Category> {
    category_of_extension(extension_of(path))
}

impl Category {
    /// The name under which the category is reported.
    pub open spec fn name_spec(self) -> Seq<char> {
        match self {
            Category::Csv => "csv"@,
            Category::Excel => "excel"@,
            Category::Text => "text"@,
            Category::Json => "json"@,
        }
    }

    pub fn name(&self) -> (r: String)
        ensures
            r@ == self.name_spec(),
    {
        match self {
            Category::Csv => String::from_str("csv"),
            Category::Excel => String::from_str("excel"),
            Category::Text => String::from_str("text"),
            Category::Json => String::from_str("json"),
        }
    }
}

/// Whether `s` spells `word` (given as its characters), letter case ignored.
fn spells_word(s: &str, word: &[char]) -> (r: bool)
    ensures
        r == spells(s@, word@),
{
    let n = s.unicode_len();
    if n != word.len() {
        return false;
    }
    let mut i: usize = 0;
    while i < n
        invariant
            n == s@.len(),
            n == word@.len(),
            0 <= i <= n,
            forall|j: int| 0 <= j < i ==> ascii_lower_code(#[trigger] s@[j]) == word@[j] as u32,
        decreases n - i,
    {
        let c = s.get_char(i);
        let code: u32 = if 'A' <= c && c <= 'Z' {
            c as u32 + 32
        } else {
            c as u32
        };
        if code != word[i] as u32 {
            return false;
        }
        i = i + 1;
    }
    true
}

/// The category of a file extension: `csv`; `xlsx`, `xls`, `xlsm`, `xlsb`;
/// `txt`, `md`, `log`, `rtf`; `json`; in any mix of upper and lower case.
pub fn category_for_extension(ext: &str) -> (r: Option<Category>)
    ensures
        r == category_of_extension(ext@),
{
    let csv = ['c', 's', 'v'];
    let xlsx = ['x', 'l', 's', 'x'];
    let xls = ['x', 'l', 's'];
    let xlsm = ['x', 'l', 's', 'm'];
    let xlsb = ['x', 'l', 's', 'b'];
    let txt = ['t', 'x', 't'];
    let md = ['m', 'd'];
    let log = ['l', 'o', 'g'];
    let rtf = ['r', 't', 'f'];
    let json = ['j', 's', 'o', 'n'];
    assert(csv@ =~= seq!['c', 's', 'v']);
    assert(xlsx@ =~= seq!['x', 'l', 's', 'x']);
    assert(xls@ =~= seq!['x', 'l', 's']);
    assert(xlsm@ =~= seq!['x', 'l', 's', 'm']);
    assert(xlsb@ =~= seq!['x', 'l', 's', 'b']);
    assert(txt@ =~= seq!['t', 'x', 't']);
    assert(md@ =~= seq!['m', 'd']);
    assert(log@ =~= seq!['l', 'o', 'g']);
    assert(rtf@ =~= seq!['r', 't', 'f']);
    assert(json@ =~= seq!['j', 's', 'o', 'n']);
    if spells_word(ext, &csv) {
        Some(Category::Csv)
    } else if spells_word(ext, &xlsx) || spells_word(ext, &xls) || spells_word(ext, &xlsm)
        || spells_word(ext, &xlsb) {
        Some(Category::Excel)
    } else if spells_word(ext, &txt) || spells_word(ext, &md) || spells_word(ext, &log)
        || spells_word(ext, &rtf) {
        Some(Category::Text)
    } else if spells_word(ext, &json) {
        Some(Category::Json)
    } else {
        None
    }
}

/// Relies on `std::path::Path::extension`, read lossily as text: the result
/// depends on the path alone.
#[verifier::external_body]
fn path_extension(path: &str) -> (r: String)
    ensures
        r@ == extension_of(path@),
{
    std::path::Path::new(path).extension().unwrap_or_default().to_string_lossy().into_owned()
}

/// The category of the file at `path`, or `None` where its extension is not one
/// the scanner looks for.
pub fn is_target_file(path: &str) -> (r: Option<Category>)
    ensures
        r == category_of_path(path@),
{
    let ext = path_extension(path);
    category_for_extension(ext.as_str())
}

} // verus!
