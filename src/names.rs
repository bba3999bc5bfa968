//! Where each partition keeps its files, and the names of those files.
use vstd::prelude::*;
use vstd::string::StringExecFns;

verus! {

/// The safe / explicit split; each partition has its own directory subtree.
#[derive(Clone, Copy, Debug, PartialEq, Eq, Structural)]
pub enum Partition {
    Safe,
    Explicit,
}

pub open spec fn partition_spec(lewds: bool) -> Partition {
    if lewds { Partition::Explicit } else { Partition::Safe }
}

pub fn partition_of(lewds: bool) -> (r: Partition)
    ensures
        r == partition_spec(lewds),
{
    if lewds { Partition::Explicit } else { Partition::Safe }
}

pub open spec fn digit_text(d: nat) -> Seq<char> {
    if d == 0 { "0"@ }
    else if d == 1 { "1"@ }
    else if d == 2 { "2"@ }
    else if d == 3 { "3"@ }
    else if d == 4 { "4"@ }
    else if d == 5 { "5"@ }
    else if d == 6 { "6"@ }
    else if d == 7 { "7"@ }
    else if d == 8 { "8"@ }
    else { "9"@ }
}

/// The decimal notation of `n`, without leading zeros.
pub open spec fn decimal(n: nat) -> Seq<char>
    decreases n,
{
    if n < 10 {
        digit_text(n)
    } else {
        decimal(n / 10) + digit_text(n % 10)
    }
}

proof fn lemma_digit_text(d: nat)
    requires
        d < 10,
    ensures
        digit_text(d).len() == 1,
        forall|e: nat| e < 10 && digit_text(e) == digit_text(d) ==> e == d,
{
    reveal_strlit("0");
    reveal_strlit("1");
    reveal_strlit("2");
    reveal_strlit("3");
    reveal_strlit("4");
    reveal_strlit("5");
    reveal_strlit("6");
    reveal_strlit("7");
    reveal_strlit("8");
    reveal_strlit("9");
    assert forall|e: nat| e < 10 && digit_text(e) == digit_text(d) implies e == d by {
        assert(digit_text(e)[0] == digit_text(d)[0]);
    }
}

proof fn lemma_decimal_shape(n: nat)
    ensures
        decimal(n).len() >= 1,
        n >= 10 ==> decimal(n).len() >= 2,
        decimal(n).last() == digit_text(n % 10)[0],
    decreases n,
{
    lemma_digit_text(n % 10);
    if n >= 10 {
        lemma_decimal_shape(n / 10);
    }
}

/// Different numbers have different decimal notations.
pub proof fn lemma_decimal_injective(a: nat, b: nat)
    requires
        decimal(a) == decimal(b),
    ensures
        a == b,
    decreases a,
{
    lemma_decimal_shape(a);
    lemma_decimal_shape(b);
    lemma_digit_text(a % 10);
    lemma_digit_text(b % 10);
    assert(digit_text(a % 10) == seq![decimal(a).last()]);
    assert(digit_text(b % 10) == seq![decimal(b).last()]);
    assert(a % 10 == b % 10);
    if a >= 10 {
        assert(b >= 10);
        let k = (decimal(a).len() - 1) as int;
        assert(decimal(a / 10) =~= decimal(a).subrange(0, k));
        assert(decimal(b / 10) =~= decimal(b).subrange(0, k));
        lemma_decimal_injective(a / 10, b / 10);
    } else {
        assert(b < 10);
    }
}

fn digit_str(d: u32) -> (r: &'static str)
    requires
        d < 10,
    ensures
        r@ == digit_text(d as nat),
{
    if d == 0 { "0" }
    else if d == 1 { "1" }
    else if d == 2 { "2" }
    else if d == 3 { "3" }
    else if d == 4 { "4" }
    else if d == 5 { "5" }
    else if d == 6 { "6" }
    else if d == 7 { "7" }
    else if d == 8 { "8" }
    else { "9" }
}

/// Writes `n` in decimal.
pub fn decimal_text(n: u32) -> (r: String)
    ensures
        r@ == decimal(n as nat),
    decreases n,
{
    if n < 10 {
        String::from_str(digit_str(n))
    } else {
        let mut s = decimal_text(n / 10);
        s.append(digit_str(n % 10));
        s
    }
}

pub open spec fn image_name_spec(id: nat) -> Seq<char> {
    decimal(id) + ".jpg"@
}

pub open spec fn lock_name_spec(id: nat) -> Seq<char> {
    decimal(id) + ".lock"@
}

pub open spec fn page_name_spec(page: nat) -> Seq<char> {
    "page_"@ + decimal(page) + ".json"@
}

/// The image artifact of a post is named by the post's id.
pub fn image_file_name(id: u32) -> (r: String)
    ensures
        r@ == image_name_spec(id as nat),
{
    decimal_text(id).concat(".jpg")
}

/// The lock marker of a post sits beside its image, named by the same id.
pub fn lock_file_name(id: u32) -> (r: String)
    ensures
        r@ == lock_name_spec(id as nat),
{
    decimal_text(id).concat(".lock")
}

/// The cache file of a result page is named by the page index.
pub fn page_file_name(page: u32) -> (r: String)
    ensures
        r@ == page_name_spec(page as nat),
{
    String::from_str("page_").concat(decimal_text(page).as_str()).concat(".json")
}

/// Each post has an image name of its own, and its lock marker never takes
/// the name of an image.
pub proof fn lemma_names_identify_posts(a: nat, b: nat)
    ensures
        image_name_spec(a) == image_name_spec(b) ==> a == b,
        lock_name_spec(a) == lock_name_spec(b) ==> a == b,
        lock_name_spec(a) != image_name_spec(b),
{
    reveal_strlit(".jpg");
    reveal_strlit(".lock");
    if image_name_spec(a) == image_name_spec(b) {
        let k = image_name_spec(a).len() - 4;
        assert(decimal(a) =~= image_name_spec(a).subrange(0, k));
        assert(decimal(b) =~= image_name_spec(b).subrange(0, k));
        lemma_decimal_injective(a, b);
    }
    if lock_name_spec(a) == lock_name_spec(b) {
        let k = lock_name_spec(a).len() - 5;
        assert(decimal(a) =~= lock_name_spec(a).subrange(0, k));
        assert(decimal(b) =~= lock_name_spec(b).subrange(0, k));
        lemma_decimal_injective(a, b);
    }
    let l = lock_name_spec(a);
    let i = image_name_spec(b);
    assert(l.last() == 'k');
    assert(i.last() == 'g');
}

/// `name` inside directory `dir`.
pub open spec fn join_spec(dir: Seq<char>, name: Seq<char>) -> Seq<char> {
    dir + "/"@ + name
}

pub fn join(dir: &str, name: &str) -> (r: String)
    ensures
        r@ == join_spec(dir@, name@),
{
    String::from_str(dir).concat("/").concat(name)
}

pub open spec fn partition_dir_spec(p: Partition) -> Seq<char> {
    match p {
        Partition::Safe => "safe"@,
        Partition::Explicit => "explicit"@,
    }
}

pub fn partition_dir_name(p: Partition) -> (r: &'static str)
    ensures
        r@ == partition_dir_spec(p),
{
    match p {
        Partition::Safe => "safe",
        Partition::Explicit => "explicit",
    }
}

/// The directories and files of one partition, and the shared config file.
#[derive(Clone, Debug)]
pub struct Paths {
    pub images_dir: String,
    pub pages_dir: String,
    pub config_file: String,
    pub current_file: String,
}

pub struct PathsView {
    pub images_dir: Seq<char>,
    pub pages_dir: Seq<char>,
    pub config_file: Seq<char>,
    pub current_file: Seq<char>,
}

impl View for Paths {
    type V = PathsView;

    open spec fn view(&self) -> PathsView {
        PathsView {
            images_dir: self.images_dir@,
            pages_dir: self.pages_dir@,
            config_file: self.config_file@,
            current_file: self.current_file@,
        }
    }
}

/// The layout under a user data directory `data`.
pub open spec fn paths_spec(data: Seq<char>, lewds: bool) -> PathsView {
    let root = join_spec(data, "konabg"@);
    let part = join_spec(root, partition_dir_spec(partition_spec(lewds)));
    PathsView {
        images_dir: join_spec(part, "images"@),
        pages_dir: join_spec(part, "pages"@),
        config_file: join_spec(root, "config.json"@),
        current_file: join_spec(part, "current.json"@),
    }
}

/// Relies on dirs::data_dir: the user's data directory, if the platform has
/// one; `None` also where its path is not valid UTF-8.
#[verifier::external_body]
fn user_data_dir() -> (r: Option<String>) {
    match dirs::data_dir() {
        Some(d) => d.into_os_string().into_string().ok(),
        None => None,
    }
}

impl Paths {
    /// The layout of a partition under the data directory `data_dir`.
    pub fn under(data_dir: &str, lewds: bool) -> (r: Paths)
        ensures
            r@ == paths_spec(data_dir@, lewds),
    {
        let root = join(data_dir, "konabg");
        let part = join(root.as_str(), partition_dir_name(partition_of(lewds)));
        Paths {
            images_dir: join(part.as_str(), "images"),
            pages_dir: join(part.as_str(), "pages"),
            config_file: join(root.as_str(), "config.json"),
            current_file: join(part.as_str(), "current.json"),
        }
    }

    /// The layout of a partition under the user's data directory; `None`
    /// where the platform has none.
    pub fn create(lewds: bool) -> (r: Option<Paths>)
        ensures
            r matches Some(p) ==> exists|d: Seq<char>| p@ == paths_spec(d, lewds),
    {
        match user_data_dir() {
            Some(d) => {
                let p = Paths::under(d.as_str(), lewds);
                Some(p)
            },
            None => None,
        }
    }

    pub fn image_path(&self, id: u32) -> (r: String)
        ensures
            r@ == join_spec(self.images_dir@, image_name_spec(id as nat)),
    {
        join(self.images_dir.as_str(), image_file_name(id).as_str())
    }

    pub fn lock_path(&self, id: u32) -> (r: String)
        ensures
            r@ == join_spec(self.images_dir@, lock_name_spec(id as nat)),
    {
        join(self.images_dir.as_str(), lock_file_name(id).as_str())
    }

    pub fn page_path(&self, page: u32) -> (r: String)
        ensures
            r@ == join_spec(self.pages_dir@, page_name_spec(page as nat)),
    {
        join(self.pages_dir.as_str(), page_file_name(page).as_str())
    }
}

} // verus!
