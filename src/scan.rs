use vstd::prelude::*;
use crate::category::{Category, category_of_path};
use crate::results::{EmailInfo, FileInfo, FileMeta, describes, process_file};

verus! {

/// The contents of a `ScanResults`: the records of each category in the order
/// they were merged, the mail profiles, and the running count.
pub struct ScanView {
    pub csv: Seq<FileInfo>,
    pub excel: Seq<FileInfo>,
    pub text: Seq<FileInfo>,
    pub json: Seq<FileInfo>,
    pub email: Seq<EmailInfo>,
    pub file_count: nat,
}

impl ScanView {
    /// The records stored under one category.
    pub open spec fn files(self, c: Category) -> Seq<FileInfo> {
        match c {
            Category::Csv => self.csv,
            Category::Excel => self.excel,
            Category::Text => self.text,
            Category::Json => self.json,
        }
    }

    /// The number of records of all categories and of mail profiles together.
    pub open spec fn total(self) -> nat {
        self.csv.len() + self.excel.len() + self.text.len() + self.json.len() + self.email.len()
    }

    /// Every record sits under the category of its own path, and the count
    /// equals the number of records and profiles held.
    pub open spec fn wf(self) -> bool {
        &&& self.file_count == self.total()
        &&& forall|c: Category, i: int|
            0 <= i < self.files(c).len() ==> category_of_path(
                (#[trigger] self.files(c)[i]).path@,
            ) == Some(c)
    }

    /// The contents with `info` appended under category `c` and counted.
    pub open spec fn with_record(self, c: Category, info: FileInfo) -> ScanView {
        ScanView {
            csv: if c == Category::Csv { self.csv.push(info) } else { self.csv },
            excel: if c == Category::Excel { self.excel.push(info) } else { self.excel },
            text: if c == Category::Text { self.text.push(info) } else { self.text },
            json: if c == Category::Json { self.json.push(info) } else { self.json },
            email: self.email,
            file_count: self.file_count + 1,
        }
    }
}

/// The figures of a completed scan: the roots asked for, the count, and the
/// tally of each category and of mail profiles.
pub struct ScanTotals {
    pub scan_dirs: Vec<String>,
    pub file_count: usize,
    pub categories: Vec<(String, usize)>,
}

/// The files found by a scan, by category, and the mail profiles listed.
pub struct ScanResults {
    csv: Vec<FileInfo>,
    excel: Vec<FileInfo>,
    text: Vec<FileInfo>,
    json: Vec<FileInfo>,
    email: Vec<EmailInfo>,
    file_count: usize,
}

impl View for ScanResults {
    type V = ScanView;

    closed spec fn view(&self) -> ScanView {
        ScanView {
            csv: self.csv@,
            excel: self.excel@,
            text: self.text@,
            json: self.json@,
            email: self.email@,
            file_count: self.file_count as nat,
        }
    }
}

impl ScanResults {
    /// Results with nothing in them.
    pub fn new() -> (r: ScanResults)
        ensures
            r@.wf(),
            r@.csv.len() == 0,
            r@.excel.len() == 0,
            r@.text.len() == 0,
            r@.json.len() == 0,
            r@.email.len() == 0,
            r@.file_count == 0,
    {
        ScanResults {
            csv: Vec::new(),
            excel: Vec::new(),
            text: Vec::new(),
            json: Vec::new(),
            email: Vec::new(),
            file_count: 0,
        }
    }

    /// Stores `info` under `category`, which must be the category of its path,
    /// and counts it.
    pub fn merge(&mut self, category: Category, info: FileInfo)
        requires
            old(self)@.wf(),
            category_of_path(info.path@) == Some(category),
            old(self)@.file_count < usize::MAX,
        ensures
            final(self)@ == old(self)@.with_record(category, info),
            final(self)@.wf(),
    {
        match category {
            Category::Csv => self.csv.push(info),
            Category::Excel => self.excel.push(info),
            Category::Text => self.text.push(info),
            Category::Json => self.json.push(info),
        }
        self.file_count = self.file_count + 1;
        assert forall|c: Category, i: int|
            0 <= i < self@.files(c).len() implies category_of_path(
            (#[trigger] self@.files(c)[i]).path@,
        ) == Some(c) by {
            if c != category || i < old(self)@.files(c).len() {
                assert(self@.files(c)[i] == old(self)@.files(c)[i]);
            }
        }
    }

    /// Classifies the file at `path` and, where it is a data file whose
    /// metadata could be read, stores its record; returns whether it did.
    pub fn record_file(&mut self, path: &str, meta: Option<FileMeta>) -> (r: bool)
        requires
            old(self)@.wf(),
            old(self)@.file_count < usize::MAX,
        ensures
            final(self)@.wf(),
            r == (category_of_path(path@) is Some && meta is Some),
            !r ==> final(self)@ == old(self)@,
            r ==> exists|info: FileInfo|
                describes(info, path@, meta->0) && final(self)@ == old(self)@.with_record(
                    category_of_path(path@)->0,
                    info,
                ),
    {
        match process_file(path, meta) {
            Some((category, info)) => {
                let ghost i = info;
                self.merge(category, info);
                assert(describes(i, path@, meta->0));
                true
            },
            None => false,
        }
    }

    /// Appends another set of results (the partial results of one root, or of
    /// one worker) to these: each category's records and the profiles are
    /// concatenated, and the counts added.
    pub fn absorb(&mut self, other: ScanResults)
        requires
            old(self)@.wf(),
            other@.wf(),
            old(self)@.file_count + other@.file_count <= usize::MAX,
        ensures
            final(self)@.wf(),
            forall|c: Category| #[trigger] final(self)@.files(c) == old(self)@.files(c) + other@.files(c),
            final(self)@.email == old(self)@.email + other@.email,
            final(self)@.file_count == old(self)@.file_count + other@.file_count,
    {
        let ghost o = other@;
        let ScanResults { csv, excel, text, json, email, file_count } = other;
        let mut csv = csv;
        let mut excel = excel;
        let mut text = text;
        let mut json = json;
        let mut email = email;
        self.csv.append(&mut csv);
        self.excel.append(&mut excel);
        self.text.append(&mut text);
        self.json.append(&mut json);
        self.email.append(&mut email);
        self.file_count = self.file_count + file_count;
        assert forall|c: Category| #[trigger] self@.files(c) == old(self)@.files(c) + o.files(c) by {
            match c {
                Category::Csv => {},
                Category::Excel => {},
                Category::Text => {},
                Category::Json => {},
            }
        }
        assert forall|c: Category, i: int|
            0 <= i < self@.files(c).len() implies category_of_path(
            (#[trigger] self@.files(c)[i]).path@,
        ) == Some(c) by {
            if i < old(self)@.files(c).len() {
                assert(self@.files(c)[i] == old(self)@.files(c)[i]);
            } else {
                assert(self@.files(c)[i] == o.files(c)[i - old(self)@.files(c).len()]);
            }
        }
    }

    /// Replaces the mail profiles, keeping the count equal to everything held.
    pub fn set_email(&mut self, profiles: Vec<EmailInfo>)
        requires
            old(self)@.wf(),
            old(self)@.file_count - old(self)@.email.len() + profiles@.len() <= usize::MAX,
        ensures
            final(self)@.wf(),
            final(self)@.email == profiles@,
            forall|c: Category| #[trigger] final(self)@.files(c) == old(self)@.files(c),
            final(self)@.file_count == old(self)@.file_count - old(self)@.email.len() + profiles@.len(),
    {
        let n = profiles.len();
        self.file_count = self.file_count - self.email.len() + n;
        self.email = profiles;
        assert forall|c: Category| #[trigger] self@.files(c) == old(self)@.files(c) by {
            match c {
                Category::Csv => {},
                Category::Excel => {},
                Category::Text => {},
                Category::Json => {},
            }
        }
    }

    /// The records stored under one category.
    pub fn files(&self, c: Category) -> (r: &Vec<FileInfo>)
        ensures
            r@ == self@.files(c),
    {
        match c {
            Category::Csv => &self.csv,
            Category::Excel => &self.excel,
            Category::Text => &self.text,
            Category::Json => &self.json,
        }
    }

    /// The mail profiles.
    pub fn email(&self) -> (r: &Vec<EmailInfo>)
        ensures
            r@ == self@.email,
    {
        &self.email
    }

    /// The tallies reported in a summary, by name: `csv`, `excel`, `text`,
    /// `json`, then `email`.
    pub fn category_counts(&self) -> (r: Vec<(String, usize)>)
        ensures
            r@.len() == 5,
            r@[0].0@ == Category::Csv.name_spec() && r@[0].1 == self@.csv.len(),
            r@[1].0@ == Category::Excel.name_spec() && r@[1].1 == self@.excel.len(),
            r@[2].0@ == Category::Text.name_spec() && r@[2].1 == self@.text.len(),
            r@[3].0@ == Category::Json.name_spec() && r@[3].1 == self@.json.len(),
            r@[4].0@ == "email"@ && r@[4].1 == self@.email.len(),
    {
        let mut r: Vec<(String, usize)> = Vec::new();
        r.push((Category::Csv.name(), self.csv.len()));
        r.push((Category::Excel.name(), self.excel.len()));
        r.push((Category::Text.name(), self.text.len()));
        r.push((Category::Json.name(), self.json.len()));
        r.push((String::from_str("email"), self.email.len()));
        r
    }

    /// The figures of these results for a scan of `scan_dirs`; the count is
    /// the sum of the tallies.
    pub fn summarize(&self, scan_dirs: Vec<String>) -> (r: ScanTotals)
        requires
            self@.wf(),
        ensures
            r.scan_dirs@ == scan_dirs@,
            r.file_count == self@.file_count,
            r.categories@.len() == 5,
            r.categories@[0].0@ == Category::Csv.name_spec() && r.categories@[0].1 == self@.csv.len(),
            r.categories@[1].0@ == Category::Excel.name_spec() && r.categories@[1].1 == self@.excel.len(),
            r.categories@[2].0@ == Category::Text.name_spec() && r.categories@[2].1 == self@.text.len(),
            r.categories@[3].0@ == Category::Json.name_spec() && r.categories@[3].1 == self@.json.len(),
            r.categories@[4].0@ == "email"@ && r.categories@[4].1 == self@.email.len(),
            r.file_count == r.categories@[0].1 + r.categories@[1].1 + r.categories@[2].1
                + r.categories@[3].1 + r.categories@[4].1,
    {
        ScanTotals { scan_dirs, file_count: self.file_count, categories: self.category_counts() }
    }

    /// The number of records and profiles held.
    pub fn file_count(&self) -> (r: usize)
        ensures
            r == self@.file_count,
    {
        self.file_count
    }
}

/// The contents after merging `records` one by one, in order, into `start`.
pub open spec fn merged(start: ScanView, records: Seq<(Category, FileInfo)>) -> ScanView
    decreases records.len(),
{
    if records.len() == 0 {
        start
    } else {
        let last = records.last();
        merged(start, records.drop_last()).with_record(last.0, last.1)
    }
}

/// How many of `records` are of category `c`.
pub open spec fn count_of(records: Seq<(Category, FileInfo)>, c: Category) -> nat
    decreases records.len(),
{
    if records.len() == 0 {
        0
    } else {
        count_of(records.drop_last(), c) + if records.last().0 == c {
            1nat
        } else {
            0nat
        }
    }
}

/// Merging adds to each category exactly the records of that category, and
/// to the count the number of records.
pub proof fn lemma_merged_counts(start: ScanView, records: Seq<(Category, FileInfo)>)
    ensures
        forall|c: Category| #[trigger] merged(start, records).files(c).len() == start.files(c).len() + count_of(records, c),
        merged(start, records).file_count == start.file_count + records.len(),
        merged(start, records).email == start.email,
    decreases records.len(),
{
    if records.len() > 0 {
        lemma_merged_counts(start, records.drop_last());
        let prev = merged(start, records.drop_last());
        let last = records.last();
        assert forall|c: Category| #[trigger] merged(start, records).files(c).len() == start.files(c).len() + count_of(records, c) by {
            assert(merged(start, records) == prev.with_record(last.0, last.1));
            assert(prev.files(c).len() == start.files(c).len() + count_of(records.drop_last(), c));
            match c {
                Category::Csv => {},
                Category::Excel => {},
                Category::Text => {},
                Category::Json => {},
            }
        }
    }
}

proof fn lemma_count_of_remove(records: Seq<(Category, FileInfo)>, j: int, c: Category)
    requires
        0 <= j < records.len(),
    ensures
        count_of(records, c) == count_of(records.remove(j), c) + if records[j].0 == c {
            1nat
        } else {
            0nat
        },
    decreases records.len(),
{
    if j == records.len() - 1 {
        assert(records.remove(j) =~= records.drop_last());
    } else {
        lemma_count_of_remove(records.drop_last(), j, c);
        assert(records.remove(j).drop_last() =~= records.drop_last().remove(j));
        assert(records.remove(j).last() == records.last());
    }
}

proof fn lemma_count_of_permutation(a: Seq<(Category, FileInfo)>, b: Seq<(Category, FileInfo)>, c: Category)
    requires
        a.to_multiset() == b.to_multiset(),
    ensures
        count_of(a, c) == count_of(b, c),
    decreases a.len(),
{
    broadcast use vstd::seq_lib::group_to_multiset_ensures;
    if a.len() == 0 {
        assert(b.to_multiset().len() == 0);
    } else {
        let x = a.last();
        let rest = a.drop_last();
        assert(a =~= rest.push(x));
        assert(a.to_multiset() =~= rest.to_multiset().insert(x));
        assert(b.to_multiset().count(x) > 0);
        assert(b.contains(x));
        let j = choose|j: int| 0 <= j < b.len() && b[j] == x;
        assert(b.remove(j).to_multiset() =~= b.to_multiset().remove(x));
        assert(rest.to_multiset() =~= rest.to_multiset().insert(x).remove(x));
        lemma_count_of_permutation(rest, b.remove(j), c);
        lemma_count_of_remove(b, j, c);
    }
}

/// Merge order does not matter to the tallies: merging the same records in
/// any two orders leaves every category, and the count, with the same size.
pub proof fn lemma_counts_independent_of_order(
    start: ScanView,
    a: Seq<(Category, FileInfo)>,
    b: Seq<(Category, FileInfo)>,
)
    requires
        a.to_multiset() == b.to_multiset(),
    ensures
        forall|c: Category| #[trigger] merged(start, a).files(c).len() == merged(start, b).files(c).len(),
        merged(start, a).file_count == merged(start, b).file_count,
{
    broadcast use vstd::seq_lib::group_to_multiset_ensures;
    lemma_merged_counts(start, a);
    lemma_merged_counts(start, b);
    assert forall|c: Category| #[trigger] merged(start, a).files(c).len() == merged(start, b).files(c).len() by {
        lemma_count_of_permutation(a, b, c);
    }
    assert(a.len() == a.to_multiset().len());
    assert(b.len() == b.to_multiset().len());
}

/// Merging keeps results well formed, so the count always equals the records
/// of every category plus the mail profiles.
pub proof fn lemma_count_equals_records(start: ScanView, records: Seq<(Category, FileInfo)>)
    requires
        start.wf(),
        forall|i: int| 0 <= i < records.len() ==> category_of_path((#[trigger] records[i]).1.path@) == Some(records[i].0),
    ensures
        merged(start, records).wf(),
        merged(start, records).file_count == merged(start, records).csv.len() + merged(start, records).excel.len()
            + merged(start, records).text.len() + merged(start, records).json.len() + merged(start, records).email.len(),
    decreases records.len(),
{
    if records.len() > 0 {
        let rest = records.drop_last();
        assert forall|i: int| 0 <= i < rest.len() implies category_of_path((#[trigger] rest[i]).1.path@) == Some(rest[i].0) by {
            assert(rest[i] == records[i]);
        }
        lemma_count_equals_records(start, rest);
        let prev = merged(start, rest);
        let last = records.last();
        let next = prev.with_record(last.0, last.1);
        assert(category_of_path(last.1.path@) == Some(last.0));
        assert forall|c: Category, i: int| 0 <= i < next.files(c).len() implies category_of_path(
            (#[trigger] next.files(c)[i]).path@,
        ) == Some(c) by {
            if c != last.0 || i < prev.files(c).len() {
                assert(next.files(c)[i] == prev.files(c)[i]);
            }
        }
    }
}

} // verus!
