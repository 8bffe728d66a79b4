//! Where a request points: drives, items, file names and paths, and the
//! URL path segments that address them.
use vstd::prelude::*;

use crate::text::chars_of;

verus! {

/// The ID of a `Drive` resource.
#[derive(Clone, Debug, PartialEq, Eq, Hash)]
pub struct DriveId(pub String);

impl DriveId {
    /// Wrap a string.
    pub fn new(id: String) -> (r: Self)
        ensures
            r.0@ == id@,
    {
        DriveId(id)
    }

    /// View as str.
    pub fn as_str(&self) -> (r: &str)
        ensures
            r@ == self.0@,
    {
        self.0.as_str()
    }
}

/// The ID of a `DriveItem` resource.
#[derive(Clone, Debug, PartialEq, Eq, Hash)]
pub struct ItemId(pub String);

impl ItemId {
    /// Wrap a string.
    pub fn new(id: String) -> (r: Self)
        ensures
            r.0@ == id@,
    {
        ItemId(id)
    }

    /// View as str.
    pub fn as_str(&self) -> (r: &str)
        ensures
            r@ == self.0@,
    {
        self.0.as_str()
    }
}

/// The tag (ETag or CTag) of a resource, which changes with it.
#[derive(Clone, Debug, PartialEq, Eq, Hash)]
pub struct Tag(pub String);

impl Tag {
    /// Wrap a string.
    pub fn new(tag: String) -> (r: Self)
        ensures
            r.0@ == tag@,
    {
        Tag(tag)
    }

    /// View as str.
    pub fn as_str(&self) -> (r: &str)
        ensures
            r@ == self.0@,
    {
        self.0.as_str()
    }
}

/// A character that no file or folder name in OneDrive may hold:
/// `"`, `*`, `:`, `<`, `>`, `?`, `/`, `\` and `|`.
pub open spec fn is_invalid_name_char(c: char) -> bool {
    ||| c == '"'
    ||| c == '*'
    ||| c == ':'
    ||| c == '<'
    ||| c == '>'
    ||| c == '?'
    ||| c == '/'
    ||| c == '\\'
    ||| c == '|'
}

/// A name that OneDrive accepts for a file or a folder: not empty, and without
/// any invalid character.
pub open spec fn is_valid_file_name(s: Seq<char>) -> bool {
    &&& s.len() > 0
    &&& forall|i: int| 0 <= i < s.len() ==> !is_invalid_name_char(#[trigger] s[i])
}

/// A path that OneDrive accepts: `/` alone, or `/` followed by one or more
/// valid file names separated by single `/`, with an optional trailing `/`.
/// Put character by character: it starts with `/`, is not `//`-started, no `/`
/// follows another, and every other character is allowed in a name.
pub open spec fn is_valid_path(p: Seq<char>) -> bool {
    ||| p == seq!['/']
    ||| {
        &&& p.len() >= 2
        &&& p[0] == '/'
        &&& p[1] != '/'
        &&& forall|i: int|
            1 <= i < p.len() ==> {
                &&& (#[trigger] p[i] == '/' ==> p[i - 1] != '/')
                &&& (p[i] != '/' ==> !is_invalid_name_char(p[i]))
            }
    }
}

/// The absolute path made of `names`: `/` before each of them.
pub open spec fn join_path(names: Seq<Seq<char>>) -> Seq<char>
    decreases names.len(),
{
    if names.len() == 0 {
        Seq::<char>::empty()
    } else {
        join_path(names.drop_last()) + seq!['/'] + names.last()
    }
}

/// A path made of valid names is valid, with or without a trailing `/`;
/// it does not end with `/` itself.
pub proof fn lemma_valid_names_make_valid_path(names: Seq<Seq<char>>)
    requires
        names.len() > 0,
        forall|i: int| 0 <= i < names.len() ==> is_valid_file_name(#[trigger] names[i]),
    ensures
        is_valid_path(join_path(names)),
        is_valid_path(join_path(names) + seq!['/']),
        join_path(names).last() != '/',
    decreases names.len(),
{
    let p = join_path(names);
    let init = names.drop_last();
    let n = names.last();
    assert(is_valid_file_name(names[names.len() - 1]));
    assert(is_invalid_name_char('/'));
    if names.len() == 1 {
        assert(init =~= Seq::<Seq<char>>::empty());
        assert(join_path(init) =~= Seq::<char>::empty());
        assert(p =~= seq!['/'] + n);
        assert(p[1] == n[0]);
    } else {
        assert forall|i: int| 0 <= i < init.len() implies is_valid_file_name(#[trigger] init[i]) by {
            assert(init[i] == names[i]);
        }
        lemma_valid_names_make_valid_path(init);
        let q = join_path(init);
        assert(p =~= q + seq!['/'] + n);
        assert(q.len() >= 2);
        assert forall|i: int|
            1 <= i < p.len() implies {
                &&& (#[trigger] p[i] == '/' ==> p[i - 1] != '/')
                &&& (p[i] != '/' ==> !is_invalid_name_char(p[i]))
            } by {
            if i < q.len() {
                assert(p[i] == q[i] && p[i - 1] == q[i - 1]);
            } else if i == q.len() {
                assert(p[i - 1] == q.last());
            } else if i == q.len() + 1 {
                assert(p[i] == n[0]);
            } else {
                assert(p[i] == n[i - q.len() - 1]);
                assert(p[i - 1] == n[i - q.len() - 2]);
            }
        }
    }
    assert(p.last() == n.last());
    let t = p + seq!['/'];
    assert forall|i: int|
        1 <= i < t.len() implies {
            &&& (#[trigger] t[i] == '/' ==> t[i - 1] != '/')
            &&& (t[i] != '/' ==> !is_invalid_name_char(t[i]))
        } by {
        if i < p.len() {
            assert(t[i] == p[i] && t[i - 1] == p[i - 1]);
            if names.len() == 1 {
                if i >= 2 {
                    assert(p[i] == n[i - 1] && p[i - 1] == n[i - 2]);
                } else {
                    assert(p[i] == n[0]);
                }
            }
        } else {
            assert(t[i - 1] == p.last());
        }
    }
    assert(t[0] == p[0] && t[1] == p[1]);
}

/// Each name of a path stands in it: `names[i]` starts at some offset `off >= 1`.
proof fn lemma_name_in_path(names: Seq<Seq<char>>, i: int) -> (off: int)
    requires
        0 <= i < names.len(),
    ensures
        1 <= off,
        off + names[i].len() <= join_path(names).len(),
        forall|j: int| 0 <= j < names[i].len() ==> join_path(names)[off + j] == names[i][j],
    decreases names.len(),
{
    let init = names.drop_last();
    let q = join_path(init);
    let p = join_path(names);
    assert(p =~= q + seq!['/'] + names.last());
    if i == names.len() - 1 {
        let off: int = q.len() as int + 1;
        assert forall|j: int| 0 <= j < names[i].len() implies p[off + j] == names[i][j] by {
            assert(p[off + j] == names.last()[j]);
        }
        off
    } else {
        let off = lemma_name_in_path(init, i);
        assert(init[i] == names[i]);
        assert forall|j: int| 0 <= j < names[i].len() implies p[off + j] == names[i][j] by {
            assert(p[off + j] == q[off + j]);
        }
        off
    }
}

/// A path in which some name holds a character that names may not hold
/// (other than `/`) is not valid, with or without a trailing `/`.
pub proof fn lemma_invalid_name_makes_invalid_path(names: Seq<Seq<char>>, i: int, j: int)
    requires
        0 <= i < names.len(),
        0 <= j < names[i].len(),
        is_invalid_name_char(names[i][j]),
        names[i][j] != '/',
    ensures
        !is_valid_path(join_path(names)),
        !is_valid_path(join_path(names) + seq!['/']),
{
    let off = lemma_name_in_path(names, i);
    let p = join_path(names);
    let t = p + seq!['/'];
    let k = off + j;
    assert(p[k] == names[i][j]);
    assert(t[k] == p[k]);
    assert(p.len() >= 2 && t.len() >= 2);
    if p == seq!['/'] {
        assert(p[k] == '/');
    }
    if t == seq!['/'] {
        assert(t.len() == 1);
    }
}

/// Each of the nine characters `"`, `*`, `:`, `<`, `>`, `?`, `/`, `\` and `|`
/// makes a name invalid, wherever it stands; a path with one of them (other
/// than `/`, which separates names) inside a name is invalid too; and a name
/// made of other characters is valid.
pub proof fn lemma_invalid_name_chars(c: char)
    ensures
        (c == '"' || c == '*' || c == ':' || c == '<' || c == '>' || c == '?' || c == '/' || c == '\\'
            || c == '|') ==> !is_valid_file_name(seq!['a', c, 'b']) && !is_valid_file_name(seq![c]),
        (c == '"' || c == '*' || c == ':' || c == '<' || c == '>' || c == '?' || c == '\\' || c
            == '|') ==> !is_valid_path(seq!['/', 'a', c, 'b']) && !is_valid_path(
            seq!['/', 'x', '/', 'a', c, 'b', '/'],
        ),
        !(c == '"' || c == '*' || c == ':' || c == '<' || c == '>' || c == '?' || c == '/' || c
            == '\\' || c == '|') ==> is_valid_file_name(seq!['a', c, 'b']) && is_valid_path(
            seq!['/', 'a', c, 'b'],
        ),
{
    let n = seq!['a', c, 'b'];
    let p = seq!['/', 'a', c, 'b'];
    let q = seq!['/', 'x', '/', 'a', c, 'b', '/'];
    assert(n[1] == c);
    assert(seq![c][0] == c);
    assert(p[2] == c && p[1] == 'a' && p[3] == 'b');
    assert(q[4] == c);
    if !(c == '"' || c == '*' || c == ':' || c == '<' || c == '>' || c == '?' || c == '/' || c
        == '\\' || c == '|') {
        assert forall|i: int| 0 <= i < n.len() implies !is_invalid_name_char(#[trigger] n[i]) by {
            if i == 0 {
                assert(n[0] == 'a');
            } else if i == 2 {
                assert(n[2] == 'b');
            }
        }
        assert forall|i: int|
            1 <= i < p.len() implies {
                &&& (#[trigger] p[i] == '/' ==> p[i - 1] != '/')
                &&& (p[i] != '/' ==> !is_invalid_name_char(p[i]))
            } by {}
        assert(p[0] == '/');
    } else if c != '/' {
        assert(is_invalid_name_char(c));
        assert(p.len() == 4 && q.len() == 7);
        assert(p != seq!['/']);
        assert(q != seq!['/']);
        assert(!(p[2] != '/' ==> !is_invalid_name_char(p[2])));
        assert(!(q[4] != '/' ==> !is_invalid_name_char(q[4])));
    }
}

/// The shape of a path: `/` alone is valid; an empty path, a path that does
/// not start with `/`, and a path with two `/` in a row are not.
pub proof fn lemma_path_shape(p: Seq<char>)
    ensures
        is_valid_path(seq!['/']),
        p.len() == 0 ==> !is_valid_path(p),
        p.len() > 0 && p[0] != '/' ==> !is_valid_path(p),
        forall|i: int| 0 <= i < p.len() - 1 && #[trigger] p[i] == '/' && p[i + 1] == '/' ==> !is_valid_path(p),
{
    assert forall|i: int| 0 <= i < p.len() - 1 && #[trigger] p[i] == '/' && p[i + 1] == '/' implies !is_valid_path(p) by {
        if p == seq!['/'] {
            assert(p.len() == 1);
        }
        if i >= 1 {
            assert(!(p[i + 1] == '/' ==> p[(i + 1) - 1] != '/'));
        }
    }
    if p.len() > 0 && p[0] != '/' && p == seq!['/'] {
        assert(p[0] == '/');
    }
}

/// A valid file name.
#[derive(Debug)]
pub struct FileName {
    name: String,
}

impl FileName {
    #[verifier::type_invariant]
    spec fn name_is_valid(self) -> bool {
        is_valid_file_name(self.name@)
    }

    /// The characters of the name.
    pub closed spec fn spec_view(&self) -> Seq<char> {
        self.name@
    }

    /// Check and wrap the name for a file or a directory in OneDrive.
    ///
    /// Returns None if it is empty or contains invalid characters.
    pub fn new(name: &str) -> (r: Option<FileName>)
        ensures
            r is Some <==> is_valid_file_name(name@),
            r matches Some(f) ==> f@ == name@,
    {
        let c = chars_of(name);
        if c.len() == 0 {
            return None;
        }
        let mut i: usize = 0;
        while i < c.len()
            invariant
                c@ == name@,
                i <= c@.len(),
                forall|j: int| 0 <= j < i ==> !is_invalid_name_char(#[trigger] c@[j]),
            decreases c@.len() - i,
        {
            if invalid_name_char(c[i]) {
                return None;
            }
            i = i + 1;
        }
        Some(FileName { name: String::from_str(name) })
    }

    /// View the file name as `&str`. It is cheap.
    pub fn as_str(&self) -> (r: &str)
        ensures
            r@ == self@,
            is_valid_file_name(r@),
    {
        proof {
            use_type_invariant(self);
        }
        self.name.as_str()
    }
}

impl View for FileName {
    type V = Seq<char>;

    open spec fn view(&self) -> Seq<char> {
        self.spec_view()
    }
}

/// Whether `c` may not appear in a file name.
fn invalid_name_char(c: char) -> (r: bool)
    ensures
        r == is_invalid_name_char(c),
{
    c == '"' || c == '*' || c == ':' || c == '<' || c == '>' || c == '?' || c == '/' || c == '\\'
        || c == '|'
}

/// Which drive a request addresses.
pub enum DriveLocationView {
    /// The signed-in user's own drive.
    Me,
    /// The drive of a user, by ID or principal name.
    User(Seq<char>),
    /// The drive of a group.
    Group(Seq<char>),
    /// The drive of a site.
    Site(Seq<char>),
    /// A drive by its ID.
    Id(Seq<char>),
}

#[derive(Clone, Debug)]
enum DriveLocationEnum {
    Me,
    User(String),
    Group(String),
    Site(String),
    Id(DriveId),
}

/// Specify the location of a `Drive` resource.
#[derive(Clone, Debug)]
pub struct DriveLocation {
    inner: DriveLocationEnum,
}

impl DriveLocation {
    /// Which drive this is.
    pub closed spec fn spec_view(&self) -> DriveLocationView {
        match self.inner {
            DriveLocationEnum::Me => DriveLocationView::Me,
            DriveLocationEnum::User(id) => DriveLocationView::User(id@),
            DriveLocationEnum::Group(id) => DriveLocationView::Group(id@),
            DriveLocationEnum::Site(id) => DriveLocationView::Site(id@),
            DriveLocationEnum::Id(id) => DriveLocationView::Id(id.0@),
        }
    }

    /// The location of the drive with ID `drive_id`.
    pub closed spec fn spec_from_id(drive_id: DriveId) -> DriveLocation {
        DriveLocation { inner: DriveLocationEnum::Id(drive_id) }
    }

    /// Current user's OneDrive.
    pub fn me() -> (r: Self)
        ensures
            r@ == DriveLocationView::Me,
    {
        DriveLocation { inner: DriveLocationEnum::Me }
    }

    /// OneDrive of a user, by ID or user principal name.
    pub fn from_user(id_or_principal_name: String) -> (r: Self)
        ensures
            r@ == DriveLocationView::User(id_or_principal_name@),
    {
        DriveLocation { inner: DriveLocationEnum::User(id_or_principal_name) }
    }

    /// The document library of a group.
    pub fn from_group(group_id: String) -> (r: Self)
        ensures
            r@ == DriveLocationView::Group(group_id@),
    {
        DriveLocation { inner: DriveLocationEnum::Group(group_id) }
    }

    /// The document library of a site.
    pub fn from_site(site_id: String) -> (r: Self)
        ensures
            r@ == DriveLocationView::Site(site_id@),
    {
        DriveLocation { inner: DriveLocationEnum::Site(site_id) }
    }

    /// A drive by its ID.
    pub fn from_id(drive_id: DriveId) -> (r: Self)
        ensures
            r@ == DriveLocationView::Id(drive_id.0@),
    {
        DriveLocation { inner: DriveLocationEnum::Id(drive_id) }
    }

    /// Appends the URL path segments that address this drive.
    pub fn push_segments(&self, out: &mut Vec<String>)
        ensures
            final(out).deep_view() == old(out).deep_view() + drive_segments(self@),
    {
        match &self.inner {
            DriveLocationEnum::Me => {
                push_segment(out, String::from_str("me"));
                push_segment(out, String::from_str("drive"));
            },
            DriveLocationEnum::User(id) => {
                push_segment(out, String::from_str("users"));
                push_segment(out, id.clone());
                push_segment(out, String::from_str("drive"));
            },
            DriveLocationEnum::Group(id) => {
                push_segment(out, String::from_str("groups"));
                push_segment(out, id.clone());
                push_segment(out, String::from_str("drive"));
            },
            DriveLocationEnum::Site(id) => {
                push_segment(out, String::from_str("sites"));
                push_segment(out, id.clone());
                push_segment(out, String::from_str("drive"));
            },
            DriveLocationEnum::Id(id) => {
                push_segment(out, String::from_str("drives"));
                push_segment(out, id.0.clone());
            },
        }
        assert(final(out).deep_view() =~= old(out).deep_view() + drive_segments(self@));
    }
}

impl View for DriveLocation {
    type V = DriveLocationView;

    open spec fn view(&self) -> DriveLocationView {
        self.spec_view()
    }
}

impl From<DriveId> for DriveLocation {
    fn from(drive_id: DriveId) -> (r: Self)
        ensures
            r@ == DriveLocationView::Id(drive_id.0@),
    {
        DriveLocation { inner: DriveLocationEnum::Id(drive_id) }
    }
}

impl vstd::std_specs::convert::FromSpecImpl<DriveId> for DriveLocation {
    open spec fn obeys_from_spec() -> bool {
        true
    }

    open spec fn from_spec(drive_id: DriveId) -> DriveLocation {
        DriveLocation::spec_from_id(drive_id)
    }
}

/// The URL path segments that address a drive.
pub open spec fn drive_segments(d: DriveLocationView) -> Seq<Seq<char>> {
    match d {
        DriveLocationView::Me => seq!["me"@, "drive"@],
        DriveLocationView::User(id) => seq!["users"@, id, "drive"@],
        DriveLocationView::Group(id) => seq!["groups"@, id, "drive"@],
        DriveLocationView::Site(id) => seq!["sites"@, id, "drive"@],
        DriveLocationView::Id(id) => seq!["drives"@, id],
    }
}

/// Which item of a drive a request addresses.
pub enum ItemLocationView {
    /// An item by its absolute path (`/` is the root folder).
    Path(Seq<char>),
    /// An item by its ID.
    Id(Seq<char>),
    /// The child with a given name of the folder with a given ID.
    ChildOfId { parent_id: Seq<char>, child_name: Seq<char> },
}

#[derive(Clone, Debug)]
enum ItemLocationEnum {
    Path(String),
    Id(String),
    ChildOfId { parent_id: String, child_name: String },
}

/// Reference to a `DriveItem` in a drive.
/// It does not contains the drive information.
#[derive(Clone, Debug)]
pub struct ItemLocation {
    inner: ItemLocationEnum,
}

impl ItemLocation {
    /// Which item this is.
    pub closed spec fn spec_view(&self) -> ItemLocationView {
        match self.inner {
            ItemLocationEnum::Path(p) => ItemLocationView::Path(p@),
            ItemLocationEnum::Id(id) => ItemLocationView::Id(id@),
            ItemLocationEnum::ChildOfId { parent_id, child_name } => ItemLocationView::ChildOfId {
                parent_id: parent_id@,
                child_name: child_name@,
            },
        }
    }

    /// The location of the item with ID `item_id`.
    pub closed spec fn spec_from_id(item_id: ItemId) -> ItemLocation {
        ItemLocation { inner: ItemLocationEnum::Id(item_id.0) }
    }

    /// A UNIX-like `/`-started absolute path to a file or directory in the drive.
    ///
    /// Returns `None` if `path` is not a valid path (see `is_valid_path`).
    /// The trailing `/` is optional.
    pub fn from_path(path: &str) -> (r: Option<ItemLocation>)
        ensures
            r is Some <==> is_valid_path(path@),
            r matches Some(l) ==> l@ == ItemLocationView::Path(path@),
    {
        let c = chars_of(path);
        let n = c.len();
        if n == 1 && c[0] == '/' {
            assert(path@ =~= seq!['/']);
            return Some(ItemLocation { inner: ItemLocationEnum::Path(String::from_str(path)) });
        }
        if n < 2 || c[0] != '/' || c[1] == '/' {
            return None;
        }
        let mut i: usize = 1;
        while i < n
            invariant
                c@ == path@,
                n == c@.len(),
                1 <= i <= n,
                forall|j: int|
                    1 <= j < i ==> {
                        &&& (#[trigger] c@[j] == '/' ==> c@[j - 1] != '/')
                        &&& (c@[j] != '/' ==> !is_invalid_name_char(c@[j]))
                    },
            decreases n - i,
        {
            if c[i] == '/' {
                if c[i - 1] == '/' {
                    return None;
                }
            } else if invalid_name_char(c[i]) {
                return None;
            }
            i = i + 1;
        }
        Some(ItemLocation { inner: ItemLocationEnum::Path(String::from_str(path)) })
    }

    /// Item id from other API.
    pub fn from_id(item_id: &ItemId) -> (r: Self)
        ensures
            r@ == ItemLocationView::Id(item_id.0@),
    {
        ItemLocation { inner: ItemLocationEnum::Id(item_id.0.clone()) }
    }

    /// The root directory item.
    pub fn root() -> (r: Self)
        ensures
            r@ == ItemLocationView::Path(seq!['/']),
    {
        let p = string_of_slash();
        ItemLocation { inner: ItemLocationEnum::Path(p) }
    }

    /// The child item in a directory.
    pub fn child_of_id(parent_id: &ItemId, child_name: &FileName) -> (r: Self)
        ensures
            r@ == (ItemLocationView::ChildOfId { parent_id: parent_id.0@, child_name: child_name@ }),
    {
        ItemLocation {
            inner: ItemLocationEnum::ChildOfId {
                parent_id: parent_id.0.clone(),
                child_name: String::from_str(child_name.as_str()),
            },
        }
    }

    /// Appends the URL path segments that address this item.
    pub fn push_segments(&self, out: &mut Vec<String>)
        ensures
            final(out).deep_view() == old(out).deep_view() + item_segments(self@),
    {
        match &self.inner {
            ItemLocationEnum::Path(p) => {
                if is_root_path(p) {
                    push_segment(out, String::from_str("root"));
                } else {
                    let s = String::from_str("root:").concat(p.as_str()).concat(":");
                    push_segment(out, s);
                }
            },
            ItemLocationEnum::Id(id) => {
                push_segment(out, String::from_str("items"));
                push_segment(out, id.clone());
            },
            ItemLocationEnum::ChildOfId { parent_id, child_name } => {
                push_segment(out, String::from_str("items"));
                push_segment(out, parent_id.clone());
                push_segment(out, String::from_str("children"));
                push_segment(out, child_name.clone());
            },
        }
        assert(final(out).deep_view() =~= old(out).deep_view() + item_segments(self@));
    }
}

impl View for ItemLocation {
    type V = ItemLocationView;

    open spec fn view(&self) -> ItemLocationView {
        self.spec_view()
    }
}

impl<'a> From<&'a ItemId> for ItemLocation {
    fn from(item_id: &'a ItemId) -> (r: Self)
        ensures
            r@ == ItemLocationView::Id(item_id.0@),
    {
        ItemLocation { inner: ItemLocationEnum::Id(item_id.0.clone()) }
    }
}

impl<'a> vstd::std_specs::convert::FromSpecImpl<&'a ItemId> for ItemLocation {
    open spec fn obeys_from_spec() -> bool {
        true
    }

    open spec fn from_spec(item_id: &'a ItemId) -> ItemLocation {
        ItemLocation::spec_from_id(*item_id)
    }
}

/// The URL path segments that address an item within its drive.
pub open spec fn item_segments(l: ItemLocationView) -> Seq<Seq<char>> {
    match l {
        ItemLocationView::Path(p) => if p == seq!['/'] {
            seq!["root"@]
        } else {
            seq!["root:"@ + p + ":"@]
        },
        ItemLocationView::Id(id) => seq!["items"@, id],
        ItemLocationView::ChildOfId { parent_id, child_name } => seq![
            "items"@,
            parent_id,
            "children"@,
            child_name,
        ],
    }
}

/// The one-character string `/`.
fn string_of_slash() -> (s: String)
    ensures
        s@ == seq!['/'],
{
    let mut v: Vec<char> = Vec::new();
    v.push('/');
    crate::text::string_from_chars(&v)
}

/// Whether `p` is the root path `/`.
fn is_root_path(p: &String) -> (r: bool)
    ensures
        r == (p@ == seq!['/']),
{
    let c = chars_of(p.as_str());
    let r = c.len() == 1 && c[0] == '/';
    proof {
        if r {
            assert(p@ =~= seq!['/']);
        }
    }
    r
}

/// What the `url` crate makes of the URL `base` with `segments` appended to its
/// path (see `url_with_segments`): the whole serialized URL.
pub uninterp spec fn spec_url_with_segments(base: Seq<char>, segments: Seq<Seq<char>>) -> Option<Seq<char>>;

/// What the `url` crate makes of the URL `base` with `segments` appended to its
/// path (see `url_path_with_segments`): the serialized path alone.
pub uninterp spec fn spec_url_path_with_segments(base: Seq<char>, segments: Seq<Seq<char>>) -> Option<Seq<char>>;

/// The size of a list of URL path segments: for each, its characters and a `/`.
pub open spec fn spec_segments_size(segments: Seq<Seq<char>>) -> nat
    decreases segments.len(),
{
    if segments.len() == 0 {
        0
    } else {
        spec_segments_size(segments.drop_last()) + segments.last().len() + 1
    }
}

/// The largest size of the segments that a URL of the library may have. A
/// character takes at most 4 bytes of UTF-8, and percent-encoding writes each
/// byte in at most 3, so `12 * size` bytes hold the encoded segments and their
/// `/`; with the base (under 64 bytes), the URL stays below `u32::MAX` bytes,
/// the most that the `url` crate serializes (it panics beyond).
pub const MAX_URL_SEGMENTS_SIZE: u64 = 357_913_935;

/// The segments are small enough for the `url` crate to join them.
pub open spec fn spec_url_size_ok(segments: Seq<Seq<char>>) -> bool {
    spec_segments_size(segments) <= MAX_URL_SEGMENTS_SIZE
}

/// The size of the first segments is at most the size of all of them.
proof fn lemma_segments_size_prefix(segments: Seq<Seq<char>>, i: int)
    requires
        0 <= i <= segments.len(),
    ensures
        spec_segments_size(segments.take(i)) <= spec_segments_size(segments),
    decreases segments.len(),
{
    if i < segments.len() {
        lemma_segments_size_prefix(segments.drop_last(), i);
        assert(segments.drop_last().take(i) =~= segments.take(i));
    } else {
        assert(segments.take(i) =~= segments);
    }
}

/// Whether the `url` crate can join `segments` to a URL of the library.
fn url_size_ok(segments: &Vec<String>) -> (r: bool)
    ensures
        r == spec_url_size_ok(segments.deep_view()),
{
    let ghost segs = segments.deep_view();
    let mut acc: u64 = 0;
    let mut i: usize = 0;
    while i < segments.len()
        invariant
            segs == segments.deep_view(),
            i <= segments@.len(),
            acc == spec_segments_size(segs.take(i as int)),
            acc <= MAX_URL_SEGMENTS_SIZE,
        decreases segments@.len() - i,
    {
        let n = segments[i].as_str().unicode_len();
        assert(segs.take(i + 1).drop_last() =~= segs.take(i as int));
        assert(segs.take(i + 1).last() == segs[i as int]);
        if n as u64 >= MAX_URL_SEGMENTS_SIZE - acc {
            proof {
                lemma_segments_size_prefix(segs, i + 1);
            }
            return false;
        }
        acc = acc + n as u64 + 1;
        i = i + 1;
    }
    assert(segs.take(i as int) =~= segs);
    true
}

/// Parses `base` with `url::Url::parse`, appends `segments` with
/// `Url::path_segments_mut` and `PathSegmentsMut::extend`, and returns
/// `Url::as_str`. The result is a function of `base` and `segments` alone
/// (each segment is percent-encoded; `.` and `..` are skipped): it is named
/// `spec_url_with_segments`, and nothing more is stated of it. `None` where
/// `base` does not parse or cannot be a base. The base is one of the two
/// short ASCII bases of the library and the segments are small enough that
/// the URL stays below `u32::MAX` bytes, beyond which the `url` crate panics
/// when the segments are written back (`Url::restore_after_path`).
#[verifier::external_body]
fn url_with_segments(base: &str, segments: &Vec<String>) -> (r: Option<String>)
    requires
        base@ == "https://graph.microsoft.com/v1.0"@ || base@ == "path:///drive"@,
        spec_url_size_ok(segments.deep_view()),
    ensures
        r.deep_view() == spec_url_with_segments(base@, segments.deep_view()),
{
    let mut url = url::Url::parse(base).ok()?;
    url.path_segments_mut().ok()?.extend(segments.iter());
    Some(url.as_str().to_owned())
}

/// As `url_with_segments`, but returns `Url::path`: named
/// `spec_url_path_with_segments`, and nothing more is stated of it. The same
/// bounds on the base and the segments keep the `url` crate from panicking.
#[verifier::external_body]
fn url_path_with_segments(base: &str, segments: &Vec<String>) -> (r: Option<String>)
    requires
        base@ == "https://graph.microsoft.com/v1.0"@ || base@ == "path:///drive"@,
        spec_url_size_ok(segments.deep_view()),
    ensures
        r.deep_view() == spec_url_path_with_segments(base@, segments.deep_view()),
{
    let mut url = url::Url::parse(base).ok()?;
    url.path_segments_mut().ok()?.extend(segments.iter());
    Some(url.path().to_owned())
}

/// The URL of a Microsoft Graph API endpoint: the segments under
/// `https://graph.microsoft.com/v1.0`, as the `url` crate joins them; `None`
/// where the segments are too large for a URL (see `MAX_URL_SEGMENTS_SIZE`).
pub open spec fn spec_api_url(segments: Seq<Seq<char>>) -> Option<Seq<char>> {
    if spec_url_size_ok(segments) {
        spec_url_with_segments("https://graph.microsoft.com/v1.0"@, segments)
    } else {
        None
    }
}

/// The URL of a Microsoft Graph API endpoint with path `segments`.
pub fn api_url(segments: &Vec<String>) -> (r: Option<String>)
    ensures
        r.deep_view() == spec_api_url(segments.deep_view()),
{
    if !url_size_ok(segments) {
        return None;
    }
    url_with_segments("https://graph.microsoft.com/v1.0", segments)
}

/// The path by which an item is referred to in a request body
/// (`parentReference.path`): its segments under `/drive`, percent-encoded;
/// `None` where the segments are too large for a URL.
pub open spec fn spec_api_path(item: ItemLocationView) -> Option<Seq<char>> {
    if spec_url_size_ok(item_segments(item)) {
        spec_url_path_with_segments("path:///drive"@, item_segments(item))
    } else {
        None
    }
}

/// The path by which `item` is referred to in a request body, such as
/// `/drive/items/1234` or `/drive/root:%2Fdir%2Ffile%20name:`.
pub fn api_path(item: &ItemLocation) -> (r: Option<String>)
    ensures
        r.deep_view() == spec_api_path(item@),
{
    let mut segments: Vec<String> = Vec::new();
    item.push_segments(&mut segments);
    assert(segments.deep_view() =~= item_segments(item@));
    if !url_size_ok(&segments) {
        return None;
    }
    url_path_with_segments("path:///drive", &segments)
}

/// Appends one segment to a list of segments.
pub fn push_segment(out: &mut Vec<String>, s: String)
    ensures
        final(out).deep_view() == old(out).deep_view().push(s@),
{
    out.push(s);
    assert(out.deep_view() =~= old(out).deep_view().push(s@));
}

} // verus!
