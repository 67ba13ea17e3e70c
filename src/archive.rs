use vstd::prelude::*;

use crate::text::{
    brace_free, lemma_replaced_brace_free_prefix, lemma_replaced_empty,
    lemma_replaced_pattern_prefix, occurs_at, replace_all, replaced,
};

verus! {

/// One repository as the listing endpoint describes it.
pub struct Repo {
    /// URL template holding the `{archive_format}` and `{/ref}` placeholders.
    pub archive_url: String,
    pub default_branch: String,
}

/// The archive URL that `template` gives for `branch`: `{archive_format}`
/// becomes `zipball`, then `{/ref}` becomes `/` followed by the branch.
pub open spec fn archive_url_of(template: Seq<char>, branch: Seq<char>) -> Seq<char> {
    replaced(
        replaced(template, "{archive_format}"@, "zipball"@),
        "{/ref}"@,
        seq!['/'] + branch,
    )
}

/// The file name that a `content-disposition` value suggests: the value
/// without any `attachment; filename=` and without any double quote.
pub open spec fn file_name_of(disposition: Seq<char>) -> Seq<char> {
    replaced(
        replaced(disposition, "attachment; filename="@, Seq::empty()),
        "\""@,
        Seq::empty(),
    )
}

/// Fills in the archive URL template of a repository for its default branch.
pub fn archive_url(template: &str, branch: &str) -> (r: String)
    ensures
        r@ == archive_url_of(template@, branch@),
{
    proof {
        reveal_strlit("{archive_format}");
        reveal_strlit("{/ref}");
        reveal_strlit("/");
    }
    let zipped = replace_all(template, "{archive_format}", "zipball");
    let mut suffix = String::from_str("/");
    suffix.append(branch);
    assert(suffix@ =~= seq!['/'] + branch@);
    replace_all(zipped.as_str(), "{/ref}", suffix.as_str())
}

/// The archive URL of each repository, in the order of `repos`.
pub fn archive_urls(repos: &Vec<Repo>) -> (r: Vec<String>)
    ensures
        r.len() == repos.len(),
        forall|i: int|
            0 <= i < r.len() ==> #[trigger] r[i]@ == archive_url_of(
                repos[i].archive_url@,
                repos[i].default_branch@,
            ),
{
    let mut urls: Vec<String> = Vec::new();
    let mut i: usize = 0;
    while i < repos.len()
        invariant
            i <= repos.len(),
            urls.len() == i,
            forall|j: int|
                0 <= j < i ==> #[trigger] urls[j]@ == archive_url_of(
                    repos[j].archive_url@,
                    repos[j].default_branch@,
                ),
        decreases repos.len() - i,
    {
        let repo = &repos[i];
        let url = archive_url(repo.archive_url.as_str(), repo.default_branch.as_str());
        urls.push(url);
        i = i + 1;
    }
    urls
}

/// The file name suggested by a `content-disposition` header value.
pub fn file_name_from_disposition(disposition: &str) -> (r: String)
    ensures
        r@ == file_name_of(disposition@),
{
    proof {
        reveal_strlit("attachment; filename=");
        reveal_strlit("\"");
        reveal_strlit("");
        assert(""@ =~= Seq::<char>::empty());
    }
    let stripped = replace_all(disposition, "attachment; filename=", "");
    replace_all(stripped.as_str(), "\"", "")
}

} // verus!

verus! {

/// A template with `{archive_format}` and then `{/ref}`, and no other opening
/// brace, gives `zipball` in place of the first, `/` and the branch in place
/// of the second, and every other character unchanged.
pub proof fn lemma_archive_url_substitutes(
    a: Seq<char>,
    b: Seq<char>,
    c: Seq<char>,
    branch: Seq<char>,
)
    requires
        brace_free(a),
        brace_free(b),
        brace_free(c),
    ensures
        archive_url_of(a + "{archive_format}"@ + b + "{/ref}"@ + c, branch) == a + "zipball"@ + b
            + seq!['/'] + branch + c,
{
    reveal_strlit("{archive_format}");
    reveal_strlit("{/ref}");
    reveal_strlit("zipball");
    let fmt = "{archive_format}"@;
    let rf = "{/ref}"@;
    let zip = "zipball"@;
    let slash_branch = seq!['/'] + branch;
    let empty = Seq::<char>::empty();
    // The first pass leaves `{/ref}` and what follows it alone.
    let tail = rf.skip(1) + c;
    assert(brace_free(tail)) by {
        assert forall|i: int| 0 <= i < tail.len() implies #[trigger] tail[i] != '{' by {
            if i >= rf.skip(1).len() {
                assert(tail[i] == c[i - rf.skip(1).len()]);
            }
        }
    }
    lemma_replaced_brace_free_prefix(tail, empty, fmt, zip);
    lemma_replaced_empty(fmt, zip);
    assert(tail + empty =~= tail);
    let rc = rf + c;
    assert(!occurs_at(rc, fmt, 0)) by {
        if occurs_at(rc, fmt, 0) {
            assert(rc.subrange(0, fmt.len() as int)[1] == fmt[1]);
        }
    }
    assert(rc.skip(1) =~= tail);
    assert(seq![rc[0]] + tail =~= rc);
    lemma_replaced_brace_free_prefix(b, rc, fmt, zip);
    lemma_replaced_pattern_prefix(fmt, b + rc, zip);
    lemma_replaced_brace_free_prefix(a, fmt + (b + rc), fmt, zip);
    let t = a + fmt + b + rf + c;
    assert(t =~= a + (fmt + (b + rc)));
    let once = a + zip + b + rf + c;
    assert(replaced(t, fmt, zip) =~= once);
    // The second pass replaces `{/ref}` alone.
    let head = a + zip + b;
    assert(brace_free(head)) by {
        assert forall|i: int| 0 <= i < head.len() implies #[trigger] head[i] != '{' by {
            if i < a.len() {
                assert(head[i] == a[i]);
            } else if i < a.len() + zip.len() {
                assert(head[i] == zip[i - a.len()]);
            } else {
                assert(head[i] == b[i - a.len() - zip.len()]);
            }
        }
    }
    lemma_replaced_brace_free_prefix(head, rc, rf, slash_branch);
    lemma_replaced_pattern_prefix(rf, c, slash_branch);
    lemma_replaced_brace_free_prefix(c, empty, rf, slash_branch);
    lemma_replaced_empty(rf, slash_branch);
    assert(c + empty =~= c);
    assert(once =~= head + rc);
    assert(head + (slash_branch + c) =~= a + zip + b + seq!['/'] + branch + c);
}

} // verus!
