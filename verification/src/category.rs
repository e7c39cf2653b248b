//! The category snapshot and the create request built from it: the clone
//! command copies a category's name, permission overwrites and position,
//! with no transformation and no deduplication.
use vstd::prelude::*;
use vstd::string::StringExecFns;

verus! {

/// Whom a permission overwrite addresses.
#[derive(Clone, Copy, PartialEq, Eq, Debug)]
pub enum OverwriteKind {
    Role,
    Member,
}

/// One permission overwrite: an allow and a deny bit set for one role or
/// member, as the platform encodes them.
#[derive(Clone, Copy, PartialEq, Eq, Debug)]
pub struct Overwrite {
    pub kind: OverwriteKind,
    pub target_id: u64,
    pub allow_bits: u64,
    pub deny_bits: u64,
}

/// What the clone command reads from the source category before creating
/// anything: its name, its ordered overwrite list, and its position.
#[derive(PartialEq, Eq, Debug)]
pub struct CategorySnapshot {
    pub name: String,
    pub overwrites: Vec<Overwrite>,
    pub position: u16,
}

/// A create-category request handed to the platform: the three copied
/// attributes, exactly as snapshotted.
#[derive(PartialEq, Eq, Debug)]
pub struct CreateCategoryRequest {
    pub name: String,
    pub overwrites: Vec<Overwrite>,
    pub position: u16,
}

/// Whether `r` reproduces the snapshot `s` exactly: same name, the same
/// overwrites in the same order, the same position.
pub open spec fn request_matches(s: CategorySnapshot, r: CreateCategoryRequest) -> bool {
    r.name@ == s.name@ && r.overwrites@ == s.overwrites@ && r.position == s.position
}

/// Builds the create request that reproduces the snapshot exactly.
pub fn build_create_request(source: &CategorySnapshot) -> (r: CreateCategoryRequest)
    ensures
        request_matches(*source, r),
{
    let mut overwrites: Vec<Overwrite> = Vec::new();
    let n = source.overwrites.len();
    let mut i: usize = 0;
    while i < n
        invariant
            n == source.overwrites.len(),
            i <= n,
            overwrites@ == source.overwrites@.take(i as int),
        decreases n - i,
    {
        overwrites.push(source.overwrites[i]);
        proof {
            assert(source.overwrites@.take(i as int).push(source.overwrites@[i as int])
                =~= source.overwrites@.take(i + 1));
        }
        i = i + 1;
    }
    proof {
        assert(source.overwrites@.take(n as int) =~= source.overwrites@);
    }
    CreateCategoryRequest { name: source.name.clone(), overwrites, position: source.position }
}

/// The placeholder posted while the clone is in progress.
pub open spec fn placeholder_text() -> Seq<char> {
    "カテゴリを複製中..."@
}

/// The confirmation the placeholder is edited to once the category exists,
/// embedding the source category's name.
pub open spec fn confirmation_text(name: Seq<char>) -> Seq<char> {
    "✅ カテゴリ「"@ + name + "」の複製が完了しました！"@
}

/// Builds the confirmation message for a completed clone of `name`.
pub fn build_confirmation(name: &str) -> (r: String)
    ensures
        r@ == confirmation_text(name@),
{
    let mut m = String::from_str("✅ カテゴリ「");
    m.append(name);
    m.append("」の複製が完了しました！");
    m
}

} // verus!
