//! Custom themes: the records a theme file holds, where theme files are
//! kept, which files name a usable theme, and how a theme name resolves to
//! a custom or a built-in theme.
use vstd::prelude::*;
use crate::config_types::{Theme, theme_from_lower};
use crate::text::{chars_of, string_of, unicode_lowercase, is_ascii_alnum, is_ascii_alphanumeric};
use crate::paths::{path_parent, path_joined, parent_of, join_path};

verus! {

broadcast use vstd::seq_lib::to_multiset_insert, vstd::seq_lib::to_multiset_build;

/// Chrome colors of a custom theme, as hex strings.
pub struct CustomChrome {
    pub accent: String,
    pub heading: String,
    pub success: String,
    pub warning: String,
    pub destructive: String,
    pub muted: String,
    pub text: String,
    pub fg: String,
    pub border: String,
    pub tag: String,
    pub folder: String,
    pub pinned: String,
    pub smart: String,
    pub subnote: String,
    pub highlight_fg: String,
    pub highlight_bg: String,
    /// `None` means a transparent background.
    pub background: Option<String>,
}

impl Default for CustomChrome {
    fn default() -> (r: CustomChrome)
        ensures
            r.accent@.len() == 0 && r.heading@.len() == 0 && r.success@.len() == 0,
            r.warning@.len() == 0 && r.destructive@.len() == 0 && r.muted@.len() == 0,
            r.text@.len() == 0 && r.fg@.len() == 0 && r.border@.len() == 0,
            r.tag@.len() == 0 && r.folder@.len() == 0 && r.pinned@.len() == 0,
            r.smart@.len() == 0 && r.subnote@.len() == 0,
            r.highlight_fg@.len() == 0 && r.highlight_bg@.len() == 0,
            r.background is None,
    {
        CustomChrome {
            accent: String::new(),
            heading: String::new(),
            success: String::new(),
            warning: String::new(),
            destructive: String::new(),
            muted: String::new(),
            text: String::new(),
            fg: String::new(),
            border: String::new(),
            tag: String::new(),
            folder: String::new(),
            pinned: String::new(),
            smart: String::new(),
            subnote: String::new(),
            highlight_fg: String::new(),
            highlight_bg: String::new(),
            background: None,
        }
    }
}

/// Graph colors of a custom theme, as hex strings.
pub struct CustomGraph {
    pub nodes: Vec<String>,
    pub chrome: String,
    pub title: String,
    pub text: String,
    pub fg: String,
    pub grid: String,
    pub bg: Option<String>,
}

impl Default for CustomGraph {
    fn default() -> (r: CustomGraph)
        ensures
            r.nodes@.len() == 0,
            r.chrome@.len() == 0 && r.title@.len() == 0 && r.text@.len() == 0,
            r.fg@.len() == 0 && r.grid@.len() == 0,
            r.bg is None,
    {
        CustomGraph {
            nodes: Vec::new(),
            chrome: String::new(),
            title: String::new(),
            text: String::new(),
            fg: String::new(),
            grid: String::new(),
            bg: None,
        }
    }
}

/// A custom theme file: chrome and graph colors.
pub struct CustomThemeFile {
    pub chrome: CustomChrome,
    pub graph: CustomGraph,
}

impl Default for CustomThemeFile {
    fn default() -> (r: CustomThemeFile)
        ensures
            r.chrome.background is None,
            r.graph.nodes@.len() == 0,
    {
        CustomThemeFile { chrome: CustomChrome::default(), graph: CustomGraph::default() }
    }
}

/// A theme name resolved: a built-in theme, or a loaded custom theme.
pub enum ResolvedTheme {
    Builtin(Theme),
    Custom(Box<CustomThemeFile>),
}

/// Resolves a theme name. A custom theme file of that name, when one was
/// loaded (`custom`), wins; else the built-in theme of that name, in any
/// letter case; else the default theme.
pub fn resolve_theme(name: &str, custom: Option<CustomThemeFile>) -> (r: ResolvedTheme)
    ensures
        custom is Some ==> r == ResolvedTheme::Custom(Box::new(custom->0)),
        custom is None ==> r == ResolvedTheme::Builtin(
            match theme_from_lower(unicode_lowercase(name@)) {
                Some(t) => t,
                None => Theme::Default,
            },
        ),
{
    match custom {
        Some(c) => ResolvedTheme::Custom(Box::new(c)),
        None => match Theme::from_str(name) {
            Ok(t) => ResolvedTheme::Builtin(t),
            Err(_) => ResolvedTheme::Builtin(Theme::Default),
        },
    }
}

/// The directory of custom theme files: `themes` beside the configuration
/// file.
pub fn custom_themes_dir(config_path: &str) -> (r: Result<String, String>)
    ensures
        match path_parent(config_path@) {
            Some(p) => r matches Ok(d) && d@ == path_joined(p, "themes"@),
            None => r matches Err(e) && e@ == "config path has no parent"@,
        },
{
    match parent_of(config_path) {
        Some(p) => Ok(join_path(p.as_str(), "themes")),
        None => Err(String::from_str("config path has no parent")),
    }
}

/// Whether a text can name a custom theme: it is not empty and holds only
/// ASCII letters, digits and underscores.
pub open spec fn is_theme_stem(s: Seq<char>) -> bool {
    s.len() > 0 && forall|i: int| 0 <= i < s.len() ==> is_ascii_alnum(#[trigger] s[i]) || s[i] == '_'
}

/// The theme a file names: its name less the `.toml` extension, when that
/// is a usable theme name.
pub open spec fn theme_of_file(name: Seq<char>) -> Option<Seq<char>> {
    if name.len() > 5 && name.skip(name.len() - 5) == ".toml"@ && is_theme_stem(
        name.take(name.len() - 5),
    ) {
        Some(name.take(name.len() - 5))
    } else {
        None
    }
}

/// The themes that the files of a directory name, in directory order.
pub open spec fn themes_of_files(names: Seq<Seq<char>>) -> Seq<Seq<char>>
    decreases names.len(),
{
    if names.len() == 0 {
        Seq::empty()
    } else {
        let earlier = themes_of_files(names.drop_last());
        match theme_of_file(names.last()) {
            Some(t) => earlier.push(t),
            None => earlier,
        }
    }
}

/// The theme a file names, if any.
pub fn theme_file_stem(name: &str) -> (r: Option<String>)
    ensures
        match r {
            Some(s) => theme_of_file(name@) == Some(s@),
            None => theme_of_file(name@) is None,
        },
{
    proof {
        reveal_strlit(".toml");
    }
    let cs = chars_of(name);
    let n = cs.len();
    if n <= 5 {
        return None;
    }
    let k = n - 5;
    if !(cs[k] == '.' && cs[k + 1] == 't' && cs[k + 2] == 'o' && cs[k + 3] == 'm' && cs[k + 4]
        == 'l') {
        proof {
            if cs@.skip(k as int) == ".toml"@ {
                assert(cs@.skip(k as int)[0] == cs@[k as int]);
                assert(cs@.skip(k as int)[1] == cs@[k + 1]);
                assert(cs@.skip(k as int)[2] == cs@[k + 2]);
                assert(cs@.skip(k as int)[3] == cs@[k + 3]);
                assert(cs@.skip(k as int)[4] == cs@[k + 4]);
            }
        }
        return None;
    }
    assert(cs@.skip(k as int) =~= ".toml"@);
    let mut i: usize = 0;
    while i < k
        invariant
            cs@ == name@,
            k == cs@.len() - 5,
            i <= k,
            forall|j: int| 0 <= j < i ==> is_ascii_alnum(#[trigger] cs@[j]) || cs@[j] == '_',
        decreases k - i,
    {
        let c = cs[i];
        if !(is_ascii_alphanumeric(c) || c == '_') {
            proof {
                assert(cs@.take(k as int)[i as int] == c);
            }
            return None;
        }
        i = i + 1;
    }
    let mut stem: Vec<char> = Vec::new();
    let mut j: usize = 0;
    while j < k
        invariant
            cs@ == name@,
            k == cs@.len() - 5,
            j <= k,
            stem@ == cs@.take(j as int),
        decreases k - j,
    {
        stem.push(cs[j]);
        j = j + 1;
        assert(stem@ =~= cs@.take(j as int));
    }
    Some(string_of(stem.as_slice()))
}

/// Character order of texts: `a` comes no later than `b` when it is a
/// prefix of `b`, or at their first difference its character is smaller.
pub open spec fn text_le(a: Seq<char>, b: Seq<char>) -> bool
    decreases a.len(),
{
    if a.len() == 0 {
        true
    } else if b.len() == 0 {
        false
    } else if a[0] != b[0] {
        a[0] < b[0]
    } else {
        text_le(a.skip(1), b.skip(1))
    }
}

/// Of two texts, one comes no later than the other.
pub proof fn lemma_text_le_total(a: Seq<char>, b: Seq<char>)
    ensures
        text_le(a, b) || text_le(b, a),
    decreases a.len(),
{
    if a.len() > 0 && b.len() > 0 {
        if a[0] == b[0] {
            lemma_text_le_total(a.skip(1), b.skip(1));
        } else {
        }
    }
}

/// Character order is transitive.
pub proof fn lemma_text_le_transitive(a: Seq<char>, b: Seq<char>, c: Seq<char>)
    requires
        text_le(a, b),
        text_le(b, c),
    ensures
        text_le(a, c),
    decreases a.len(),
{
    if a.len() > 0 && b.len() > 0 && c.len() > 0 && a[0] == b[0] && b[0] == c[0] {
        lemma_text_le_transitive(a.skip(1), b.skip(1), c.skip(1));
    }
}

/// Whether texts are in character order.
pub open spec fn is_sorted_texts(s: Seq<Seq<char>>) -> bool {
    forall|i: int, j: int| 0 <= i < j < s.len() ==> text_le(#[trigger] s[i], #[trigger] s[j])
}

/// Whether `a` comes no later than `b` in character order.
pub fn text_le_exec(a: &Vec<char>, b: &Vec<char>) -> (r: bool)
    ensures
        r == text_le(a@, b@),
{
    let mut i: usize = 0;
    assert(a@.skip(0) =~= a@);
    assert(b@.skip(0) =~= b@);
    while i < a.len() && i < b.len()
        invariant
            i <= a@.len(),
            i <= b@.len(),
            text_le(a@, b@) == text_le(a@.skip(i as int), b@.skip(i as int)),
        decreases a@.len() - i,
    {
        if a[i] != b[i] {
            return a[i] < b[i];
        }
        proof {
            assert(a@.skip(i as int).skip(1) =~= a@.skip(i + 1));
            assert(b@.skip(i as int).skip(1) =~= b@.skip(i + 1));
        }
        i = i + 1;
    }
    i == a.len()
}

/// The views of a list of strings.
pub open spec fn string_views(v: Seq<String>) -> Seq<Seq<char>> {
    v.map_values(|p: String| p@)
}

/// The themes that the files of a directory name, in character order.
/// `file_names` are the names of the directory's entries; a theme file is
/// `<name>.toml`, where the name is ASCII letters, digits and underscores.
pub fn theme_names(file_names: &Vec<String>) -> (r: Vec<String>)
    ensures
        is_sorted_texts(string_views(r@)),
        string_views(r@).to_multiset() == themes_of_files(string_views(file_names@)).to_multiset(),
{
    let ghost names = string_views(file_names@);
    let mut out: Vec<String> = Vec::new();
    let mut keys: Vec<Vec<char>> = Vec::new();
    let mut i: usize = 0;
    assert(names.take(0) =~= Seq::<Seq<char>>::empty());
    assert(string_views(out@) =~= Seq::<Seq<char>>::empty());
    while i < file_names.len()
        invariant
            names == string_views(file_names@),
            i <= names.len(),
            out@.len() == keys@.len(),
            forall|k: int| 0 <= k < keys@.len() ==> (#[trigger] keys@[k])@ == out@[k]@,
            is_sorted_texts(string_views(out@)),
            string_views(out@).to_multiset() == themes_of_files(names.take(i as int)).to_multiset(),
        decreases names.len() - i,
    {
        proof {
            assert(names.take(i + 1).drop_last() == names.take(i as int));
            assert(names.take(i + 1).last() == file_names@[i as int]@);
        }
        match theme_file_stem(file_names[i].as_str()) {
            Some(stem) => {
                let key = chars_of(stem.as_str());
                let mut p: usize = 0;
                while p < keys.len() && text_le_exec(&keys[p], &key)
                    invariant
                        p <= keys@.len(),
                        forall|k: int| 0 <= k < p ==> text_le((#[trigger] keys@[k])@, key@),
                    decreases keys@.len() - p,
                {
                    p = p + 1;
                }
                let ghost before = string_views(out@);
                let ghost keys_before = keys@;
                let ghost out_before = out@;
                proof {
                    assert forall|k: int| 0 <= k < before.len() implies before[k] == (
                    #[trigger] keys@[k])@ by {}
                    if p < keys@.len() {
                        assert(!text_le(keys@[p as int]@, key@));
                        lemma_text_le_total(keys@[p as int]@, key@);
                        assert forall|j: int| p <= j < before.len() implies text_le(
                            key@,
                            #[trigger] before[j],
                        ) by {
                            if j > p {
                                assert(text_le(before[p as int], before[j]));
                                lemma_text_le_transitive(key@, before[p as int], before[j]);
                            }
                        }
                    }
                }
                out.insert(p, stem);
                keys.insert(p, key);
                proof {
                    let after = string_views(out@);
                    assert(after =~= before.insert(p as int, key@));
                    assert forall|a: int, b: int|
                        0 <= a < b < after.len() implies text_le(
                        #[trigger] after[a],
                        #[trigger] after[b],
                    ) by {
                        if b < p {
                            assert(after[a] == before[a]);
                            assert(after[b] == before[b]);
                        } else if b == p {
                            assert(after[a] == before[a]);
                            assert(after[b] == key@);
                            assert(text_le(keys@[a]@, key@));
                        } else if a < p {
                            assert(after[a] == before[a]);
                            assert(after[b] == before[b - 1]);
                            assert(text_le(keys@[a]@, key@));
                            assert(text_le(key@, before[b - 1]));
                            lemma_text_le_transitive(before[a], key@, before[b - 1]);
                        } else if a == p {
                            assert(after[a] == key@);
                            assert(after[b] == before[b - 1]);
                        } else {
                            assert(after[a] == before[a - 1]);
                            assert(after[b] == before[b - 1]);
                        }
                    }
                    assert forall|k: int| 0 <= k < keys@.len() implies (#[trigger] keys@[k])@
                        == out@[k]@ by {
                        if k < p {
                            assert(keys@[k] == keys_before[k]);
                            assert(out@[k] == out_before[k]);
                        } else if k == p {
                        } else {
                            assert(keys@[k] == keys_before[k - 1]);
                            assert(out@[k] == out_before[k - 1]);
                        }
                    }
                }
            },
            None => {},
        }
        i = i + 1;
    }
    proof {
        assert(names.take(names.len() as int) == names);
    }
    out
}

} // verus!
