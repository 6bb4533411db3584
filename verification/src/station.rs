//! Station records and the pure halves of the station directory.
//!
//! A station is an immutable record the external resolver hands over
//! once. The resolver's network work stays outside; what lives here is
//! the logic it needs decided: which playlist entry of a directory
//! record to prefer, and which stream URL a fetched playlist file names.

use vstd::prelude::*;

use crate::error::AppError;
use crate::text::find_byte;
use crate::text::spec_find;
use crate::text::spec_trim;
use crate::text::trim_bytes;

verus! {

/// One station of the directory, as the resolver delivers it.
#[derive(Debug, Clone)]
pub struct Station {
    pub id: String,
    pub title: String,
    pub description: String,
    pub dj: String,
    pub genre: String,
    /// The resolved stream URL.
    pub url: String,
    pub image: String,
    /// Last-known "now playing" string.
    pub last_playing: String,
}

/// Audio container format of a playlist entry, as far as the selection
/// logic cares.
#[derive(Clone, Copy, Debug, PartialEq, Eq, Structural)]
pub enum PlaylistFormat {
    Mp3,
    Other,
}

/// Quality label of a playlist entry, as far as the selection logic
/// cares.
#[derive(Clone, Copy, Debug, PartialEq, Eq, Structural)]
pub enum PlaylistQuality {
    Highest,
    Other,
}

/// One playlist entry of a directory record.
#[derive(Debug, Clone)]
pub struct PlaylistEntry {
    pub format: PlaylistFormat,
    pub quality: PlaylistQuality,
    pub url: String,
}

/// The entry is an MP3 playlist of the highest quality.
pub open spec fn spec_is_mp3_highest(e: PlaylistEntry) -> bool {
    e.format is Mp3 && e.quality is Highest
}

/// The entry is an MP3 playlist.
pub open spec fn spec_is_mp3(e: PlaylistEntry) -> bool {
    e.format is Mp3
}

/// `i` is the first index of `s` satisfying highest-quality MP3.
pub open spec fn spec_first_mp3_highest(s: Seq<PlaylistEntry>, i: int) -> bool {
    &&& 0 <= i < s.len()
    &&& spec_is_mp3_highest(s[i])
    &&& forall|j: int| 0 <= j < i ==> !spec_is_mp3_highest(s[j])
}

/// `i` is the first index of `s` holding an MP3 entry.
pub open spec fn spec_first_mp3(s: Seq<PlaylistEntry>, i: int) -> bool {
    &&& 0 <= i < s.len()
    &&& spec_is_mp3(s[i])
    &&& forall|j: int| 0 <= j < i ==> !spec_is_mp3(s[j])
}

/// Pick the playlist URL to resolve: the first highest-quality MP3
/// entry, else the first MP3 entry, else the first entry of all, else
/// nothing.
pub fn select_playlist_url(entries: &Vec<PlaylistEntry>) -> (r: Option<String>)
    ensures
        ({
            let s = entries@;
            match r {
                Some(url) => {
                    ||| (exists|i: int| spec_first_mp3_highest(s, i) && url@ == s[i].url@)
                    ||| ((forall|j: int| 0 <= j < s.len() ==> !spec_is_mp3_highest(s[j])) && (
                    exists|i: int| spec_first_mp3(s, i) && url@ == s[i].url@))
                    ||| ((forall|j: int| 0 <= j < s.len() ==> !spec_is_mp3(s[j])) && s.len() > 0
                        && url@ == s[0].url@)
                },
                None => s.len() == 0,
            }
        }),
{
    let n = entries.len();
    let mut i: usize = 0;
    while i < n
        invariant
            n == entries@.len(),
            i <= n,
            forall|j: int| 0 <= j < i ==> !spec_is_mp3_highest(entries@[j]),
        decreases n - i,
    {
        let e = &entries[i];
        if matches!(e.format, PlaylistFormat::Mp3) && matches!(e.quality, PlaylistQuality::Highest) {
            proof {
                assert(spec_first_mp3_highest(entries@, i as int));
            }
            return Some(e.url.clone());
        }
        i = i + 1;
    }
    let mut i: usize = 0;
    while i < n
        invariant
            n == entries@.len(),
            i <= n,
            forall|j: int| 0 <= j < i ==> !spec_is_mp3(entries@[j]),
            forall|j: int| 0 <= j < n ==> !spec_is_mp3_highest(entries@[j]),
        decreases n - i,
    {
        let e = &entries[i];
        if matches!(e.format, PlaylistFormat::Mp3) {
            proof {
                assert(spec_first_mp3(entries@, i as int));
            }
            return Some(e.url.clone());
        }
        i = i + 1;
    }
    if n > 0 {
        Some(entries[0].url.clone())
    } else {
        None
    }
}

/// The stream URL a playlist file names: for the first `File`-prefixed
/// line holding a `=`, the text between the first `=` and the next `=`
/// or the line's end, trimmed; nothing if no such line exists.
pub open spec fn spec_pls_url(s: Seq<u8>) -> Option<Seq<u8>>
    decreases s.len(),
    via spec_pls_url_decreases
{
    if s.len() == 0 {
        None
    } else {
        let nl = spec_find(s, 10);
        let line = if nl == -1 {
            s
        } else {
            s.take(nl)
        };
        if spec_line_names_file(line) {
            Some(spec_line_url(line))
        } else if nl == -1 {
            None
        } else {
            spec_pls_url(s.skip(nl + 1))
        }
    }
}

#[via_fn]
proof fn spec_pls_url_decreases(s: Seq<u8>) {
    if s.len() > 0 {
        crate::text::lemma_find_props(s, 10);
    }
}

/// The line starts with `File` and holds a `=`.
pub open spec fn spec_line_names_file(line: Seq<u8>) -> bool {
    &&& line.len() >= 4
    &&& line[0] == 'F' as u8
    &&& line[1] == 'i' as u8
    &&& line[2] == 'l' as u8
    &&& line[3] == 'e' as u8
    &&& spec_find(line, '=' as u8) != -1
}

/// The URL a `File` line names: between its first `=` and the next `=`
/// or the end, trimmed.
pub open spec fn spec_line_url(line: Seq<u8>) -> Seq<u8> {
    let eq = spec_find(line, '=' as u8);
    let rest = line.skip(eq + 1);
    let eq2 = spec_find(rest, '=' as u8);
    let piece = if eq2 == -1 {
        rest
    } else {
        rest.take(eq2)
    };
    spec_trim(piece)
}

/// Extract the URL named by the `File` line of a `File=...` piece.
fn line_url<'a>(line: &'a [u8], eq: usize) -> (r: &'a [u8])
    requires
        eq == spec_find(line@, '=' as u8),
        0 <= eq < line@.len(),
    ensures
        r@ == spec_line_url(line@),
{
    let n = line.len();
    let rest = vstd::slice::slice_subrange(line, eq + 1, n);
    proof {
        assert(rest@ =~= line@.skip(eq + 1));
    }
    let piece = match find_byte(rest, 61) {
        None => rest,
        Some(eq2) => {
            proof {
                assert(rest@.subrange(0, eq2 as int) =~= rest@.take(eq2 as int));
            }
            vstd::slice::slice_subrange(rest, 0, eq2)
        },
    };
    trim_bytes(piece)
}

impl Station {
    /// Parse the body of a fetched playlist file: the bytes of the URL
    /// its first usable `File` line names. An empty or absent URL is the
    /// station error the resolver reports.
    pub fn parse_pls_content(content: &[u8]) -> (r: Result<Vec<u8>, AppError>)
        ensures
            match r {
                Ok(url) => spec_pls_url(content@) == Some(url@) && url@.len() > 0,
                Err(e) => (spec_pls_url(content@) is None || spec_pls_url(content@) == Some(
                    Seq::<u8>::empty(),
                )) && e is Station,
            },
    {
        let mut s: &[u8] = content;
        proof {
            assert(s@ =~= content@);
        }
        loop
            invariant
                spec_pls_url(content@) == spec_pls_url(s@),
            decreases s@.len(),
        {
            if s.len() == 0 {
                return Err(
                    AppError::Station(String::from_str("No stream URL found in PLS file")),
                );
            }
            let (line, rest, has_rest): (&[u8], &[u8], bool) = match find_byte(s, 10) {
                None => (s, vstd::slice::slice_subrange(s, s.len(), s.len()), false),
                Some(nl) => {
                    let n = s.len();
                    proof {
                        assert(s@.subrange(0, nl as int) =~= s@.take(nl as int));
                        assert(s@.subrange(nl + 1, s@.len() as int) =~= s@.skip(nl + 1));
                    }
                    (
                        vstd::slice::slice_subrange(s, 0, nl),
                        vstd::slice::slice_subrange(s, nl + 1, n),
                        true,
                    )
                },
            };
            let is_file_line: bool = line.len() >= 4 && line[0] == 70 && line[1] == 105 && line[2]
                == 108 && line[3] == 101;
            if is_file_line {
                if let Some(eq) = find_byte(line, 61) {
                    let url = line_url(line, eq);
                    if url.len() == 0 {
                        return Err(
                            AppError::Station(
                                String::from_str("No stream URL found in PLS file"),
                            ),
                        );
                    }
                    let mut out: Vec<u8> = Vec::new();
                    let mut k: usize = 0;
                    while k < url.len()
                        invariant
                            k <= url@.len(),
                            out@ == url@.take(k as int),
                        decreases url@.len() - k,
                    {
                        out.push(url[k]);
                        proof {
                            assert(out@ =~= url@.take(k + 1));
                        }
                        k = k + 1;
                    }
                    proof {
                        assert(url@.take(url@.len() as int) =~= url@);
                    }
                    return Ok(out);
                }
            }
            if !has_rest {
                return Err(
                    AppError::Station(String::from_str("No stream URL found in PLS file")),
                );
            }
            s = rest;
        }
    }
}

} // verus!
