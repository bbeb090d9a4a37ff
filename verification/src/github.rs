//! GitHub workflow discovery helpers and status-badge rendering.
use vstd::prelude::*;

verus! {

use vstd::slice::slice_index_get;
use vstd::string::StrSliceExecFns;
use vstd::string::StringExecFns;
use crate::text::ends_with;
use crate::text::ends_with_str;
use crate::text::eq_ignore_ascii_case_seq;
use crate::text::eq_ignore_ascii_case_str;
use crate::text::is_blank;
use crate::text::join_all;
use crate::text::lemma_join_all_push;
use crate::text::push_char;
use crate::text::substring;
use crate::text::trim_str;
use crate::text::trimmed;
use crate::text::views_of;

/// Whether `w` carries one of the two workflow file extensions.
pub open spec fn has_workflow_ext(w: Seq<char>) -> bool {
    ends_with(w, ".yaml"@) || ends_with(w, ".yml"@)
}

/// The entries that carry a workflow file extension, in their given order.
pub open spec fn workflow_names_of(entries: Seq<Seq<char>>) -> Seq<Seq<char>>
    decreases entries.len(),
{
    if entries.len() == 0 {
        Seq::empty()
    } else {
        let rest = workflow_names_of(entries.drop_first());
        if has_workflow_ext(entries[0]) {
            seq![entries[0]] + rest
        } else {
            rest
        }
    }
}

proof fn lemma_workflow_names_push(entries: Seq<Seq<char>>, x: Seq<char>)
    ensures
        workflow_names_of(entries.push(x)) == if has_workflow_ext(x) {
            workflow_names_of(entries).push(x)
        } else {
            workflow_names_of(entries)
        },
    decreases entries.len(),
{
    let p = entries.push(x);
    if entries.len() == 0 {
        assert(p[0] == x);
        assert(p.drop_first() =~= Seq::<Seq<char>>::empty());
        assert(workflow_names_of(Seq::<Seq<char>>::empty()) == Seq::<Seq<char>>::empty());
        if has_workflow_ext(x) {
            assert(workflow_names_of(p) =~= workflow_names_of(entries).push(x));
        }
    } else {
        assert(p[0] == entries[0]);
        assert(p.drop_first() =~= entries.drop_first().push(x));
        lemma_workflow_names_push(entries.drop_first(), x);
        if has_workflow_ext(x) {
            assert(workflow_names_of(p) =~= workflow_names_of(entries).push(x));
        }
    }
}

/// Keeps the directory entries whose name ends in `.yaml` or `.yml`,
/// in enumeration order. The caller supplies the raw listing of the
/// conventional workflow directory; a missing directory is an empty listing.
pub fn get_github_workflows(entries: &Vec<String>) -> (workflows: Vec<String>)
    ensures
        views_of(workflows@) == workflow_names_of(views_of(entries@)),
{
    let mut workflows: Vec<String> = Vec::new();
    let n: usize = entries.len();
    let mut i: usize = 0;
    while i < n
        invariant
            0 <= i <= n,
            n == entries@.len(),
            views_of(workflows@) == workflow_names_of(views_of(entries@.take(i as int))),
        decreases n - i,
    {
        let ghost prefix = views_of(entries@.take(i as int));
        let entry = &entries[i];
        if ends_with_str(entry.as_str(), ".yaml") || ends_with_str(entry.as_str(), ".yml") {
            workflows.push(entry.clone());
        }
        proof {
            assert(views_of(entries@.take(i + 1)) =~= prefix.push(entries@[i as int]@));
            lemma_workflow_names_push(prefix, entries@[i as int]@);
            assert(views_of(workflows@) =~= workflow_names_of(views_of(entries@.take(i + 1))));
        }
        i = i + 1;
    }
    proof {
        assert(entries@.take(n as int) =~= entries@);
    }
    workflows
}

/// `s` with one `.yaml` or `.yml` extension stripped from its end.
pub open spec fn strip_yaml_ext(s: Seq<char>) -> Seq<char> {
    if ends_with(s, ".yaml"@) {
        s.take(s.len() - 5)
    } else if ends_with(s, ".yml"@) {
        s.take(s.len() - 4)
    } else {
        s
    }
}

pub fn remove_yaml_file_extension(filename: &str) -> (r: String)
    ensures
        r@ == strip_yaml_ext(filename@),
{
    proof {
        reveal_strlit(".yaml");
        reveal_strlit(".yml");
        assert(".yaml"@ =~= seq!['.', 'y', 'a', 'm', 'l']);
        assert(".yml"@ =~= seq!['.', 'y', 'm', 'l']);
    }
    let n: usize = filename.unicode_len();
    if ends_with_str(filename, ".yaml") {
        let r = substring(filename, 0, n - 5);
        proof {
            assert(r@ =~= strip_yaml_ext(filename@));
        }
        r
    } else if ends_with_str(filename, ".yml") {
        let r = substring(filename, 0, n - 4);
        proof {
            assert(r@ =~= strip_yaml_ext(filename@));
        }
        r
    } else {
        String::from_str(filename)
    }
}

pub open spec fn is_ascii_upper(c: char) -> bool {
    65 <= c as u32 <= 90
}

pub open spec fn is_ascii_lower(c: char) -> bool {
    97 <= c as u32 <= 122
}

/// A name that reads as the conventional continuous-integration workflow:
/// the two letters `C` and `I`, in either case.
pub open spec fn is_ci_name(s: Seq<char>) -> bool {
    eq_ignore_ascii_case_seq(s, seq!['C', 'I'])
}

/// What one character contributes to the human-readable form of a filename:
/// dashes and underscores become spaces, and a space is inserted before an
/// uppercase letter.
pub open spec fn humanize_step(c: char) -> Seq<char> {
    if c == '-' || c == '_' {
        seq![' ']
    } else if is_ascii_upper(c) {
        seq![' ', c]
    } else {
        seq![c]
    }
}

pub open spec fn humanize_core(s: Seq<char>) -> Seq<char>
    decreases s.len(),
{
    if s.len() == 0 {
        Seq::empty()
    } else {
        humanize_step(s[0]) + humanize_core(s.drop_first())
    }
}

/// A filename turned into words: camel-case split apart, dashes and
/// underscores turned to spaces, the ends trimmed.
pub open spec fn humanized(s: Seq<char>) -> Seq<char> {
    trimmed(humanize_core(s))
}

proof fn lemma_humanize_core_push(s: Seq<char>, c: char)
    ensures
        humanize_core(s.push(c)) == humanize_core(s) + humanize_step(c),
    decreases s.len(),
{
    let p = s.push(c);
    if s.len() == 0 {
        assert(p[0] == c);
        assert(p.drop_first() =~= Seq::<char>::empty());
        assert(humanize_core(Seq::<char>::empty()) == Seq::<char>::empty());
        assert(humanize_core(p) =~= humanize_core(s) + humanize_step(c));
    } else {
        assert(p[0] == s[0]);
        assert(p.drop_first() =~= s.drop_first().push(c));
        lemma_humanize_core_push(s.drop_first(), c);
        assert(humanize_core(p) =~= humanize_core(s) + humanize_step(c));
    }
}

/// What titlecase::titlecase returns; the result depends on the characters alone.
pub uninterp spec fn titlecase_of(s: Seq<char>) -> Seq<char>;

/// A single word already in title case: an uppercase ASCII letter followed
/// by lowercase ASCII letters.
pub open spec fn titlecased_ascii_word(s: Seq<char>) -> bool {
    s.len() >= 1 && is_ascii_upper(s[0]) && forall|i: int|
        1 <= i < s.len() ==> is_ascii_lower(#[trigger] s[i])
}

/// Relies on titlecase::titlecase: it capitalizes words per John Gruber's
/// title-case style, and its result depends on the input characters alone.
/// A word that is already an uppercase ASCII letter followed by lowercase
/// ASCII letters comes back unchanged: such a word matches none of the
/// special shapes (paths, acronyms, internal capitals), a non-small word
/// keeps its capital through ucfirst, and a small word is first lowercased
/// and then restored by fix_small_word_at_start.
#[verifier::external_body]
fn titlecase_str(s: &str) -> (r: String)
    ensures
        r@ == titlecase_of(s@),
        titlecased_ascii_word(s@) ==> r@ == s@,
{
    titlecase::titlecase(s)
}

proof fn lemma_humanize_core_all_lower(s: Seq<char>)
    requires
        forall|i: int| 0 <= i < s.len() ==> is_ascii_lower(#[trigger] s[i]),
    ensures
        humanize_core(s) == s,
    decreases s.len(),
{
    if s.len() == 0 {
        assert(humanize_core(s) =~= s);
    } else {
        assert(is_ascii_lower(s[0]));
        lemma_humanize_core_all_lower(s.drop_first());
        assert(humanize_core(s) =~= s);
    }
}

/// On a word already in title case, turning a filename into words changes
/// nothing: the one inserted space is trimmed away again.
proof fn lemma_humanized_titlecased(s: Seq<char>)
    requires
        titlecased_ascii_word(s),
    ensures
        humanized(s) == s,
{
    let rest = s.drop_first();
    assert forall|i: int| 0 <= i < rest.len() implies is_ascii_lower(#[trigger] rest[i]) by {
        assert(rest[i] == s[i + 1]);
    }
    lemma_humanize_core_all_lower(rest);
    assert(humanize_core(s) =~= seq![' '] + s);
    let h = humanize_core(s);
    assert(h[0] == ' ' && is_blank(h[0]));
    assert(h.drop_first() =~= s);
    assert(!is_blank(s[0]));
    assert(crate::text::ltrim(h) == crate::text::ltrim(s));
    assert(crate::text::ltrim(s) == s);
    if s.len() > 1 {
        assert(is_ascii_lower(s.last()));
        assert(!is_blank(s.last()));
    } else {
        assert(s.last() == s[0]);
        assert(!is_blank(s.last()));
    }
    assert(crate::text::rtrim(s) == s);
}

/// The words of a workflow filename, title-cased.
pub fn to_titlecase(string: &str) -> (r: String)
    ensures
        r@ == titlecase_of(humanized(string@)),
        titlecased_ascii_word(humanized(string@)) ==> r@ == humanized(string@),
{
    let n: usize = string.unicode_len();
    let mut words = String::new();
    let mut i: usize = 0;
    while i < n
        invariant
            0 <= i <= n,
            n == string@.len(),
            words@ == humanize_core(string@.take(i as int)),
        decreases n - i,
    {
        let ghost prefix = string@.take(i as int);
        let c = string.get_char(i);
        let u = c as u32;
        if c == '-' || c == '_' {
            words.append(" ");
        } else if 65 <= u && u <= 90 {
            words.append(" ");
            push_char(&mut words, c);
        } else {
            push_char(&mut words, c);
        }
        proof {
            reveal_strlit(" ");
            assert(" "@ =~= seq![' ']);
            assert(string@.take(i + 1) =~= prefix.push(c));
            lemma_humanize_core_push(prefix, c);
            assert(words@ =~= humanize_core(string@.take(i + 1)));
        }
        i = i + 1;
    }
    proof {
        assert(string@.take(n as int) =~= string@);
    }
    let trimmed_words = trim_str(words.as_str());
    titlecase_str(trimmed_words.as_str())
}

/// The badge label for a workflow filename: `CI` verbatim for the
/// continuous-integration workflow, otherwise the title-cased words.
pub open spec fn alt_text_of(w: Seq<char>) -> Seq<char> {
    let base = strip_yaml_ext(w);
    if is_ci_name(base) {
        "CI"@
    } else {
        titlecase_of(humanized(base))
    }
}

/// Formats a workflow filename as a human-readable badge label. On a name
/// that is already a single title-cased word the formatting is idempotent:
/// the label is the name itself.
pub fn get_alt_text(workflow: &str) -> (r: String)
    ensures
        r@ == alt_text_of(workflow@),
        titlecased_ascii_word(strip_yaml_ext(workflow@)) && !is_ci_name(strip_yaml_ext(workflow@))
            ==> r@ == strip_yaml_ext(workflow@),
{
    let workflow_basename = remove_yaml_file_extension(workflow);
    proof {
        reveal_strlit("CI");
        assert("CI"@ =~= seq!['C', 'I']);
    }
    if eq_ignore_ascii_case_str(workflow_basename.as_str(), "CI") {
        String::from_str("CI")
    } else {
        let r = to_titlecase(workflow_basename.as_str());
        proof {
            if titlecased_ascii_word(workflow_basename@) {
                lemma_humanized_titlecased(workflow_basename@);
            }
        }
        r
    }
}

/// A workflow filename whose basename spells `ci`, in any letter case, is
/// labelled `CI` verbatim.
pub proof fn lemma_ci_label(w: Seq<char>)
    requires
        is_ci_name(strip_yaml_ext(w)),
    ensures
        alt_text_of(w) == "CI"@,
{
}

/// `s` with one trailing `/` removed.
pub open spec fn strip_one_trailing_slash(s: Seq<char>) -> Seq<char> {
    if s.len() > 0 && s.last() == '/' {
        s.drop_last()
    } else {
        s
    }
}

pub open spec fn badge_image_url_of(repo: Seq<char>, w: Seq<char>) -> Seq<char> {
    strip_one_trailing_slash(repo) + "/actions/workflows/"@ + w + "/badge.svg"@
}

pub open spec fn badge_link_url_of(repo: Seq<char>, w: Seq<char>) -> Seq<char> {
    strip_one_trailing_slash(repo) + "/actions/workflows/"@ + w
}

/// The full markdown for one badge: the image, wrapped in a link.
pub open spec fn badge_markdown_of(repo: Seq<char>, w: Seq<char>) -> Seq<char> {
    "[!["@ + alt_text_of(w) + "]("@ + badge_image_url_of(repo, w) + ")]("@ + badge_link_url_of(
        repo,
        w,
    ) + ")"@
}

/// A status badge for one workflow of a repository.
pub struct GithubWorkflowBadge {
    alt_text: String,
    image_url: String,
    workflow_url: String,
}

impl GithubWorkflowBadge {
    /// The markdown this badge renders to.
    pub closed spec fn spec_markdown(&self) -> Seq<char> {
        "[!["@ + self.alt_text@ + "]("@ + self.image_url@ + ")]("@ + self.workflow_url@ + ")"@
    }

    pub fn new(repo_url: &str, workflow: &str) -> (b: Self)
        ensures
            b.spec_markdown() == badge_markdown_of(repo_url@, workflow@),
    {
        let n: usize = repo_url.unicode_len();
        let base: String = if n > 0 && repo_url.get_char(n - 1) == '/' {
            let stripped = substring(repo_url, 0, n - 1);
            proof {
                assert(stripped@ =~= strip_one_trailing_slash(repo_url@));
            }
            stripped
        } else {
            String::from_str(repo_url)
        };
        let alt_text = get_alt_text(workflow);
        let mut workflow_url = base;
        workflow_url.append("/actions/workflows/");
        workflow_url.append(workflow);
        let mut image_url = workflow_url.clone();
        image_url.append("/badge.svg");
        let b = GithubWorkflowBadge { alt_text, image_url, workflow_url };
        proof {
            assert(b.spec_markdown() =~= badge_markdown_of(repo_url@, workflow@));
        }
        b
    }

    pub fn render(&self) -> (r: String)
        ensures
            r@ == self.spec_markdown(),
    {
        let mut r = String::from_str("[![");
        r.append(self.alt_text.as_str());
        r.append("](");
        r.append(self.image_url.as_str());
        r.append(")](");
        r.append(self.workflow_url.as_str());
        r.append(")");
        proof {
            assert(r@ =~= self.spec_markdown());
        }
        r
    }
}

pub open spec fn badge_markdowns_of(repo: Seq<char>, ws: Seq<Seq<char>>) -> Seq<Seq<char>> {
    ws.map_values(|w: Seq<char>| badge_markdown_of(repo, w))
}

/// The badges of several workflows joined by single line breaks.
pub open spec fn badges_block_of(repo: Seq<char>, ws: Seq<Seq<char>>) -> Seq<char> {
    join_all(badge_markdowns_of(repo, ws), seq!['\n'])
}

/// The status badges of a repository's workflows, one per workflow.
pub struct GithubWorkflowBadges {
    badges: Vec<GithubWorkflowBadge>,
}

impl GithubWorkflowBadges {
    /// The markdown of each badge held, in order.
    pub closed spec fn spec_markdowns(&self) -> Seq<Seq<char>> {
        self.badges@.map_values(|b: GithubWorkflowBadge| b.spec_markdown())
    }

    pub fn new(repo_url: &str, workflows: &[String]) -> (r: Self)
        ensures
            r.spec_markdowns() == badge_markdowns_of(repo_url@, views_of(workflows@)),
    {
        let mut badges: Vec<GithubWorkflowBadge> = Vec::new();
        let n: usize = workflows.len();
        let mut i: usize = 0;
        while i < n
            invariant
                0 <= i <= n,
                n == workflows@.len(),
                badges@.map_values(|b: GithubWorkflowBadge| b.spec_markdown())
                    == badge_markdowns_of(repo_url@, views_of(workflows@.take(i as int))),
            decreases n - i,
        {
            let ghost prefix = badges@.map_values(|b: GithubWorkflowBadge| b.spec_markdown());
            let badge = GithubWorkflowBadge::new(repo_url, slice_index_get(workflows, i).as_str());
            badges.push(badge);
            proof {
                assert(views_of(workflows@.take(i + 1)) =~= views_of(workflows@.take(i as int)).push(
                    workflows@[i as int]@,
                ));
                assert(badges@.map_values(|b: GithubWorkflowBadge| b.spec_markdown()) =~= prefix.push(
                    badge.spec_markdown(),
                ));
                assert(badge_markdowns_of(repo_url@, views_of(workflows@.take(i + 1)))
                    =~= badge_markdowns_of(repo_url@, views_of(workflows@.take(i as int))).push(
                    badge_markdown_of(repo_url@, workflows@[i as int]@),
                ));
            }
            i = i + 1;
        }
        proof {
            assert(workflows@.take(n as int) =~= workflows@);
        }
        GithubWorkflowBadges { badges }
    }

    /// The badges joined by single line breaks, in order.
    pub fn render(&self) -> (r: String)
        ensures
            r@ == join_all(self.spec_markdowns(), seq!['\n']),
    {
        let mut out = String::new();
        let n: usize = self.badges.len();
        let mut i: usize = 0;
        while i < n
            invariant
                0 <= i <= n,
                n == self.badges@.len(),
                out@ == join_all(
                    self.badges@.take(i as int).map_values(
                        |b: GithubWorkflowBadge| b.spec_markdown(),
                    ),
                    seq!['\n'],
                ),
            decreases n - i,
        {
            let ghost prefix = self.badges@.take(i as int).map_values(
                |b: GithubWorkflowBadge| b.spec_markdown(),
            );
            if i > 0 {
                out.append("\n");
            }
            let piece = self.badges[i].render();
            out.append(piece.as_str());
            proof {
                reveal_strlit("\n");
                assert("\n"@ =~= seq!['\n']);
                assert(self.badges@.take(i + 1).map_values(
                    |b: GithubWorkflowBadge| b.spec_markdown(),
                ) =~= prefix.push(self.badges@[i as int].spec_markdown()));
                lemma_join_all_push(prefix, seq!['\n'], self.badges@[i as int].spec_markdown());
                assert(out@ =~= join_all(
                    self.badges@.take(i + 1).map_values(
                        |b: GithubWorkflowBadge| b.spec_markdown(),
                    ),
                    seq!['\n'],
                ));
            }
            i = i + 1;
        }
        proof {
            assert(self.badges@.take(n as int) =~= self.badges@);
            assert(self.badges@.take(n as int).map_values(
                |b: GithubWorkflowBadge| b.spec_markdown(),
            ) =~= self.spec_markdowns());
        }
        out
    }
}

} // verus!
