//! Maven-style library coordinates: `group:artifact:version`, optionally
//! `:classifier`, optionally `@extension` (default `jar`), with the
//! canonical repository path derived from the coordinate alone.

use vstd::prelude::*;
use crate::strutil::{find_char, spec_index_of, str_eq};

verus! {

/// A parsed library coordinate. Two coordinates differing in any field,
/// the classifier included, address distinct artifacts.
#[derive(Debug, Clone)]
pub struct LibrarySpecifier {
    pub group: String,
    pub artifact: String,
    pub version: String,
    pub classifier: Option<String>,
    /// File extension of the artifact; `jar` when the coordinate names none.
    pub extension: String,
}

/// Spec-level mirror of [`LibrarySpecifier`].
pub struct SpecifierV {
    pub group: Seq<char>,
    pub artifact: Seq<char>,
    pub version: Seq<char>,
    pub classifier: Option<Seq<char>>,
    pub extension: Seq<char>,
}

impl View for LibrarySpecifier {
    type V = SpecifierV;

    open spec fn view(&self) -> SpecifierV {
        SpecifierV {
            group: self.group@,
            artifact: self.artifact@,
            version: self.version@,
            classifier: match self.classifier {
                Some(c) => Some(c@),
                None => None,
            },
            extension: self.extension@,
        }
    }
}

/// What parsing a coordinate yields: the part after a first `@` is the
/// extension; the rest must split on `:` into three or four components.
pub open spec fn spec_parse_specifier(s: Seq<char>) -> Option<SpecifierV> {
    let main = match spec_index_of(s, '@') {
        None => s,
        Some(i) => s.take(i),
    };
    let ext = match spec_index_of(s, '@') {
        None => "jar"@,
        Some(i) => s.skip(i + 1),
    };
    match spec_index_of(main, ':') {
        None => None,
        Some(i1) => {
            let group = main.take(i1);
            let rest1 = main.skip(i1 + 1);
            match spec_index_of(rest1, ':') {
                None => None,
                Some(i2) => {
                    let artifact = rest1.take(i2);
                    let rest2 = rest1.skip(i2 + 1);
                    match spec_index_of(rest2, ':') {
                        None => Some(
                            SpecifierV {
                                group,
                                artifact,
                                version: rest2,
                                classifier: None,
                                extension: ext,
                            },
                        ),
                        Some(i3) => {
                            let version = rest2.take(i3);
                            let classifier = rest2.skip(i3 + 1);
                            if spec_index_of(classifier, ':') is Some {
                                None
                            } else {
                                Some(
                                    SpecifierV {
                                        group,
                                        artifact,
                                        version,
                                        classifier: Some(classifier),
                                        extension: ext,
                                    },
                                )
                            }
                        },
                    }
                },
            }
        },
    }
}

/// Parse a coordinate string.
pub fn parse_specifier(s: &str) -> (r: Option<LibrarySpecifier>)
    ensures
        match r {
            Some(sp) => spec_parse_specifier(s@) == Some(sp@),
            None => spec_parse_specifier(s@) is None,
        },
{
    let s_len = s.unicode_len();
    let (main, extension): (&str, String) = match find_char(s, '@') {
        None => (s, "jar".to_owned()),
        Some(i) => {
            let m = s.substring_char(0, i);
            let e = s.substring_char(i + 1, s_len).to_owned();
            proof {
                assert(s@.subrange(0, i as int) =~= s@.take(i as int));
                assert(s@.subrange(i + 1, s@.len() as int) =~= s@.skip(i + 1));
            }
            (m, e)
        },
    };
    let main_len = main.unicode_len();
    let i1 = match find_char(main, ':') {
        None => {
            return None;
        },
        Some(i) => i,
    };
    let group = main.substring_char(0, i1).to_owned();
    let rest1 = main.substring_char(i1 + 1, main_len);
    proof {
        assert(main@.subrange(0, i1 as int) =~= main@.take(i1 as int));
        assert(main@.subrange(i1 + 1, main@.len() as int) =~= main@.skip(i1 + 1));
    }
    let rest1_len = rest1.unicode_len();
    let i2 = match find_char(rest1, ':') {
        None => {
            return None;
        },
        Some(i) => i,
    };
    let artifact = rest1.substring_char(0, i2).to_owned();
    let rest2 = rest1.substring_char(i2 + 1, rest1_len);
    proof {
        assert(rest1@.subrange(0, i2 as int) =~= rest1@.take(i2 as int));
        assert(rest1@.subrange(i2 + 1, rest1@.len() as int) =~= rest1@.skip(i2 + 1));
    }
    let rest2_len = rest2.unicode_len();
    match find_char(rest2, ':') {
        None => Some(
            LibrarySpecifier {
                group,
                artifact,
                version: rest2.to_owned(),
                classifier: None,
                extension,
            },
        ),
        Some(i3) => {
            let version = rest2.substring_char(0, i3).to_owned();
            let classifier = rest2.substring_char(i3 + 1, rest2_len);
            proof {
                assert(rest2@.subrange(0, i3 as int) =~= rest2@.take(i3 as int));
                assert(rest2@.subrange(i3 + 1, rest2@.len() as int) =~= rest2@.skip(i3 + 1));
            }
            match find_char(classifier, ':') {
                Some(_) => None,
                None => Some(
                    LibrarySpecifier {
                        group,
                        artifact,
                        version,
                        classifier: Some(classifier.to_owned()),
                        extension,
                    },
                ),
            }
        },
    }
}

/// The group with each dot replaced by a path separator.
pub open spec fn spec_replace_dots(g: Seq<char>) -> Seq<char> {
    Seq::new(
        g.len(),
        |i: int|
            if g[i] == '.' {
                '/'
            } else {
                g[i]
            },
    )
}

/// Replace each dot of the group by a path separator.
fn replace_dots(group: &str) -> (r: String)
    ensures
        r@ == spec_replace_dots(group@),
{
    let mut out = String::new();
    let mut rest: &str = group;
    loop
        invariant
            rest@.len() <= group@.len(),
            rest@ =~= group@.skip(group@.len() - rest@.len()),
            out@ =~= spec_replace_dots(group@.take(group@.len() - rest@.len())),
        decreases rest@.len(),
    {
        let ghost consumed = group@.len() - rest@.len();
        let rest_len = rest.unicode_len();
        match find_char(rest, '.') {
            None => {
                out.append(rest);
                proof {
                    assert forall|k: int| 0 <= k < group@.len() implies #[trigger] spec_replace_dots(
                        group@,
                    )[k] == out@[k] by {
                        if k < consumed {
                        } else {
                            assert(rest@[k - consumed] == group@[k]);
                            assert(rest@[k - consumed] != '.');
                        }
                    }
                    assert(out@ =~= spec_replace_dots(group@));
                }
                return out;
            },
            Some(i) => {
                out.append(rest.substring_char(0, i));
                out.append("/");
                let next = rest.substring_char(i + 1, rest_len);
                proof {
                    reveal_strlit("/");
                    let new_consumed = consumed + i + 1;
                    assert(next@ =~= group@.skip(group@.len() - next@.len()));
                    assert forall|k: int| 0 <= k < new_consumed implies #[trigger] spec_replace_dots(
                        group@.take(new_consumed),
                    )[k] == out@[k] by {
                        if k < consumed {
                            assert(out@[k] == spec_replace_dots(group@.take(consumed))[k]);
                        } else if k < consumed + i {
                            assert(out@[k] == rest@.subrange(0, i as int)[k - consumed]);
                            assert(rest@[k - consumed] == group@[k]);
                            assert(rest@[k - consumed] != '.');
                        } else {
                            assert(k == consumed + i);
                            assert(out@[k] == '/');
                            assert(rest@[i as int] == '.');
                            assert(group@[k] == '.');
                        }
                    }
                    assert(out@ =~= spec_replace_dots(group@.take(new_consumed)));
                }
                rest = next;
            },
        }
    }
}

/// Canonical repository-relative path of a coordinate:
/// `group-as-dirs/artifact/version/artifact-version[-classifier].extension`.
pub open spec fn spec_path_of(v: SpecifierV) -> Seq<char> {
    let base = spec_replace_dots(v.group) + "/"@ + v.artifact + "/"@ + v.version + "/"@
        + v.artifact + "-"@ + v.version;
    let with_classifier = match v.classifier {
        Some(c) => base + "-"@ + c,
        None => base,
    };
    with_classifier + "."@ + v.extension
}

impl LibrarySpecifier {
    /// Canonical repository-relative path of the artifact.
    pub open spec fn spec_path(&self) -> Seq<char> {
        spec_path_of(self@)
    }

    /// Canonical repository-relative path of the artifact.
    pub fn file_path(&self) -> (r: String)
        ensures
            r@ == self.spec_path(),
    {
        let mut out = replace_dots(self.group.as_str());
        out.append("/");
        out.append(self.artifact.as_str());
        out.append("/");
        out.append(self.version.as_str());
        out.append("/");
        out.append(self.artifact.as_str());
        out.append("-");
        out.append(self.version.as_str());
        match &self.classifier {
            Some(c) => {
                out.append("-");
                out.append(c.as_str());
            },
            None => {},
        }
        out.append(".");
        out.append(self.extension.as_str());
        out
    }

    /// A copy equal to this coordinate, with the equality known.
    pub fn duplicate(&self) -> (r: LibrarySpecifier)
        ensures
            r@ == self@,
    {
        LibrarySpecifier {
            group: self.group.clone(),
            artifact: self.artifact.clone(),
            version: self.version.clone(),
            classifier: match &self.classifier {
                Some(c) => Some(c.clone()),
                None => None,
            },
            extension: self.extension.clone(),
        }
    }

    /// Replace the classifier.
    pub fn set_classifier(&mut self, classifier: Option<String>)
        ensures
            final(self).group == old(self).group,
            final(self).artifact == old(self).artifact,
            final(self).version == old(self).version,
            final(self).extension == old(self).extension,
            final(self)@.classifier == (match classifier {
                Some(c) => Some(c@),
                None => None::<Seq<char>>,
            }),
    {
        self.classifier = classifier;
    }

    /// Whether two coordinates address the same artifact.
    pub fn same_as(&self, other: &LibrarySpecifier) -> (r: bool)
        ensures
            r == (self@.group == other@.group && self@.artifact == other@.artifact && self@.version
                == other@.version && self@.classifier == other@.classifier && self@.extension
                == other@.extension),
    {
        if !str_eq(self.group.as_str(), other.group.as_str()) {
            return false;
        }
        if !str_eq(self.artifact.as_str(), other.artifact.as_str()) {
            return false;
        }
        if !str_eq(self.version.as_str(), other.version.as_str()) {
            return false;
        }
        if !str_eq(self.extension.as_str(), other.extension.as_str()) {
            return false;
        }
        match (&self.classifier, &other.classifier) {
            (None, None) => true,
            (Some(a), Some(b)) => str_eq(a.as_str(), b.as_str()),
            _ => false,
        }
    }
}

} // verus!
