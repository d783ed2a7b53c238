//! The files of a package: which patterns select them for packing.
use vstd::prelude::*;

verus! {

/// The manifest's file name, relative to the package root.
pub const PKG_PATH: &'static str = "package.json";

/// The patterns that are never packed, whatever the manifest lists.
pub open spec fn always_ignored() -> Seq<Seq<char>> {
    seq![
        ".gitignore"@,
        ".npmignore"@,
        "**/.git"@,
        "**/.svn"@,
        "**/.hg"@,
        "**/CVS"@,
        "**/.git/**"@,
        "**/.svn/**"@,
        "**/.hg/**"@,
        "**/CVS/**"@,
        "/.lock-wscript"@,
        "/.wafpickle-*"@,
        "/build/config.gypi"@,
        "npm-debug.log"@,
        "**/.npmrc"@,
        ".*.swp"@,
        ".DS_Store"@,
        "**/.DS_Store/**"@,
        "._*"@,
        "**/._*/**"@,
        "*.orig"@,
        "/package-lock.json"@,
        "/yarn.lock"@,
        "/archived-packages/**"@,
    ]
}

/// The patterns that are never packed, in order.
pub fn always_ignored_patterns() -> (r: Vec<&'static str>)
    ensures
        r@.map_values(|p: &'static str| p@) == always_ignored(),
{
    let r = vec![
        ".gitignore",
        ".npmignore",
        "**/.git",
        "**/.svn",
        "**/.hg",
        "**/CVS",
        "**/.git/**",
        "**/.svn/**",
        "**/.hg/**",
        "**/CVS/**",
        "/.lock-wscript",
        "/.wafpickle-*",
        "/build/config.gypi",
        "npm-debug.log",
        "**/.npmrc",
        ".*.swp",
        ".DS_Store",
        "**/.DS_Store/**",
        "._*",
        "**/._*/**",
        "*.orig",
        "/package-lock.json",
        "/yarn.lock",
        "/archived-packages/**",
    ];
    assert(r@.map_values(|p: &'static str| p@) =~= always_ignored());
    r
}

/// The override patterns for a package whose manifest lists `files`: each listed pattern,
/// then each always-ignored pattern negated with `!`. A later pattern takes precedence, so
/// no listed pattern brings an ignored file back.
pub open spec fn override_patterns(files: Seq<Seq<char>>) -> Seq<Seq<char>> {
    files + always_ignored().map_values(|g: Seq<char>| "!"@ + g)
}

/// The views of a sequence of strings.
pub open spec fn views(v: Seq<String>) -> Seq<Seq<char>> {
    v.map_values(|s: String| s@)
}

/// The packing state of a project: the `files` list of its manifest, once loaded.
pub struct OroPack {
    pkg_files: Option<Vec<String>>,
}

impl Default for OroPack {
    fn default() -> (r: OroPack)
        ensures
            r.files_view() is None,
    {
        OroPack::new()
    }
}

impl OroPack {
    pub closed spec fn files_view(&self) -> Option<Seq<Seq<char>>> {
        match self.pkg_files {
            Some(v) => Some(views(v@)),
            None => None,
        }
    }

    /// A project whose manifest is not loaded yet.
    pub fn new() -> (r: OroPack)
        ensures
            r.files_view() is None,
    {
        OroPack { pkg_files: None }
    }

    /// Takes the `files` list of the loaded manifest.
    pub fn load(&mut self, files: Vec<String>)
        ensures
            final(self).files_view() == Some(views(files@)),
    {
        self.pkg_files = Some(files);
    }

    /// Whether the manifest is loaded.
    pub fn is_loaded(&self) -> (r: bool)
        ensures
            r == self.files_view() is Some,
    {
        self.pkg_files.is_some()
    }

    /// The override patterns that select the files to pack (see `override_patterns`).
    pub fn include_patterns(&self) -> (r: Vec<String>)
        requires
            self.files_view() is Some,
        ensures
            views(r@) == override_patterns(self.files_view()->0),
    {
        let files = match &self.pkg_files {
            Some(v) => v,
            None => {
                return Vec::new();
            },
        };
        let ghost fv = views(files@);
        let mut out: Vec<String> = Vec::new();
        let mut i: usize = 0;
        while i < files.len()
            invariant
                i <= files@.len(),
                fv == views(files@),
                views(out@) == fv.subrange(0, i as int),
            decreases files@.len() - i,
        {
            let c = files[i].clone();
            let ghost prev = out@;
            out.push(c);
            assert(views(out@) =~= views(prev).push(c@));
            assert(fv.subrange(0, i as int).push(fv[i as int]) =~= fv.subrange(0, i + 1));
            i += 1;
        }
        let ignored = always_ignored_patterns();
        let ghost neg = always_ignored().map_values(|g: Seq<char>| "!"@ + g);
        let mut j: usize = 0;
        while j < ignored.len()
            invariant
                j <= ignored@.len(),
                ignored@.map_values(|p: &'static str| p@) == always_ignored(),
                neg == always_ignored().map_values(|g: Seq<char>| "!"@ + g),
                views(out@) == fv + neg.subrange(0, j as int),
            decreases ignored@.len() - j,
        {
            let mut p = "!".to_owned();
            p.append(ignored[j]);
            assert(always_ignored()[j as int] == ignored@[j as int]@);
            let ghost prev = out@;
            out.push(p);
            assert(views(out@) =~= views(prev).push(p@));
            assert((fv + neg.subrange(0, j as int)).push(neg[j as int]) =~= fv + neg.subrange(0, j + 1));
            j += 1;
        }
        assert(fv.subrange(0, fv.len() as int) =~= fv);
        assert(neg.subrange(0, neg.len() as int) =~= neg);
        out
    }
}

} // verus!
