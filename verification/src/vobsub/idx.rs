//! Parse the content of a file in `*.idx` format.
use super::palette::{palette, spec_colors, spec_palette, Palette, PaletteFault};
use crate::errors::SubError;
use regex::Regex;
use vstd::prelude::*;
use vstd::string::StringExecFns;
use vstd::utf8::encode_utf8;

verus! {

/// The regular expression of a line that gives a key its value.
pub const KEY_VALUE: &'static str = "^([A-Za-z/ ]+): (.*)";

/// What `Regex::captures` of the `regex` crate finds in `haystack` for the
/// regular expression `pattern`, where `Regex::new` accepts it: `None` where
/// nothing matches, else the text of each capture group of the first match, by
/// index, `None` for a group that had no part in the match.
pub uninterp spec fn regex_captures(pattern: Seq<char>, haystack: Seq<char>) -> Option<
    Seq<Option<Seq<char>>>,
>;

/// The text of each group that was found.
pub open spec fn spec_groups(found: Option<Vec<Option<String>>>) -> Option<
    Seq<Option<Seq<char>>>,
> {
    match found {
        None => None,
        Some(groups) => Some(
            Seq::new(
                groups@.len(),
                |i: int|
                    match groups@[i] {
                        Some(text) => Some(text@),
                        None => None,
                    },
            ),
        ),
    }
}

/// Calls `Regex::new` on `pattern` and, where the crate accepts it,
/// `Regex::captures` on `haystack`, and copies the text of each group.
///
/// Nothing is proved of it. It claims that a result that is no error is what
/// [`regex_captures`] names: that it depends on the two texts alone. The
/// result is an error where `Regex::new` gives one; of that nothing is
/// claimed.
#[verifier::external_body]
fn captures(pattern: &str, haystack: &str) -> (r: Result<Option<Vec<Option<String>>>, ()>)
    ensures
        r matches Ok(found) ==> regex_captures(pattern@, haystack@) == spec_groups(found),
{
    let re = Regex::new(pattern).map_err(|_| ())?;
    Ok(
        re.captures(haystack).map(
            |caps| caps.iter().map(|group| group.map(|m| m.as_str().to_owned())).collect(),
        ),
    )
}

/// Why the lines of an `*.idx` file give no palette.
#[derive(Debug, Clone, Copy, PartialEq, Eq, Structural)]
pub enum IdxFault {
    /// The value of a `palette` key is no palette.
    Palette(PaletteFault),
    /// No line gives the `palette` key.
    MissingPalette,
}

/// The key and the value that the groups of a line give: the groups 1 and 2,
/// where both are there.
pub open spec fn spec_key_value(groups: Option<Seq<Option<Seq<char>>>>) -> Option<
    (Seq<char>, Seq<char>),
> {
    match groups {
        Some(groups) => if groups.len() >= 3 && groups[1] is Some && groups[2] is Some {
            Some((groups[1]->Some_0, groups[2]->Some_0))
        } else {
            None
        },
        None => None,
    }
}

/// The palette that is held after a line with the groups `groups`: the
/// palette of the value where the key is `palette`, else the one held before.
pub open spec fn spec_apply_groups(
    held: Option<Seq<Seq<u8>>>,
    groups: Option<Seq<Option<Seq<char>>>>,
) -> Result<Option<Seq<Seq<u8>>>, IdxFault> {
    match spec_key_value(groups) {
        Some((key, value)) => if key == "palette"@ {
            match spec_palette(encode_utf8(value)) {
                Ok(colors) => Ok(Some(colors)),
                Err(fault) => Err(IdxFault::Palette(fault)),
            }
        } else {
            Ok(held)
        },
        None => Ok(held),
    }
}

/// The palette that the lines from `from` on give, when `held` is held: each
/// line that matches [`KEY_VALUE`] gives a key its value, the value of the
/// last `palette` key is the palette, and every other key is passed over.
pub open spec fn spec_read_palette(
    lines: Seq<String>,
    from: int,
    held: Option<Seq<Seq<u8>>>,
) -> Result<Seq<Seq<u8>>, IdxFault>
    decreases lines.len() - from,
{
    if from < 0 || from >= lines.len() {
        match held {
            Some(colors) => Ok(colors),
            None => Err(IdxFault::MissingPalette),
        }
    } else {
        match spec_apply_groups(held, regex_captures(KEY_VALUE@, lines[from]@)) {
            Ok(next) => spec_read_palette(lines, from + 1, next),
            Err(fault) => Err(fault),
        }
    }
}

/// The error `e` stands for the fault `fault`.
pub open spec fn stands_for(e: SubError, fault: IdxFault) -> bool {
    match fault {
        IdxFault::Palette(fault) => super::palette::stands_for(e, fault),
        IdxFault::MissingPalette => e matches SubError::MissingKey(key) && key@ == "palette"@,
    }
}

/// The palette that is held, if any.
pub open spec fn spec_held(held: Option<Palette>) -> Option<Seq<Seq<u8>>> {
    match held {
        Some(colors) => Some(spec_colors(colors)),
        None => None,
    }
}

/// The key and the value of a line, from the groups that were found in it.
pub fn key_value(found: &Option<Vec<Option<String>>>) -> (r: Option<(&String, &String)>)
    ensures
        match r {
            Some((key, value)) => spec_key_value(spec_groups(*found)) == Some((key@, value@)),
            None => spec_key_value(spec_groups(*found)) is None,
        },
{
    match found {
        Some(groups) => {
            if groups.len() < 3 {
                return None;
            }
            match (&groups[1], &groups[2]) {
                (Some(key), Some(value)) => Some((key, value)),
                _ => None,
            }
        },
        None => None,
    }
}

/// Takes in the groups that were found in a line: the value of a `palette`
/// key is read as the palette, in place of the one held; other lines leave
/// what is held.
///
/// # Errors
///
/// The error of [`palette`] for the value of a `palette` key.
pub fn apply_key_value(held: Option<Palette>, found: &Option<Vec<Option<String>>>) -> (r: Result<
    Option<Palette>,
    SubError,
>)
    ensures
        match r {
            Ok(next) => spec_apply_groups(spec_held(held), spec_groups(*found)) == Ok::<
                Option<Seq<Seq<u8>>>,
                IdxFault,
            >(spec_held(next)),
            Err(e) => spec_apply_groups(spec_held(held), spec_groups(*found)) matches Err(fault)
                && stands_for(e, fault),
        },
{
    match key_value(found) {
        Some((key, value)) => {
            let wanted = String::from_str("palette");
            if *key == wanted {
                match palette(value.as_str().as_bytes()) {
                    Ok(colors) => Ok(Some(colors)),
                    Err(e) => Err(e),
                }
            } else {
                Ok(held)
            }
        },
        None => Ok(held),
    }
}

/// The error that says that the `regex` crate did not take [`KEY_VALUE`].
pub open spec fn is_pattern_error(e: SubError) -> bool {
    e matches SubError::Parse(text) && text@ == KEY_VALUE@
}

/// Read the palette in the lines of the content of an `*.idx` file, each
/// without the white space at its end.
///
/// The lines are matched by the `regex` crate. What comes of its findings is
/// [`apply_key_value`].
///
/// # Errors
///
/// The error of [`palette`] for the value of a `palette` key; `MissingKey`
/// where no line gives that key; `Parse`, with the text of [`KEY_VALUE`],
/// where the `regex` crate does not take that regular expression.
pub fn read_palette(lines: &[String]) -> (r: Result<Palette, SubError>)
    ensures
        match r {
            Ok(colors) => spec_read_palette(lines@, 0, None) == Ok::<Seq<Seq<u8>>, IdxFault>(
                spec_colors(colors),
            ),
            Err(e) => is_pattern_error(e) || (spec_read_palette(lines@, 0, None) matches Err(
                fault,
            ) && stands_for(e, fault)),
        },
{
    let count: usize = lines.len();
    let mut palette_val: Option<Palette> = None;
    let mut i: usize = 0;
    while i < count
        invariant
            i <= count,
            count == lines@.len(),
            spec_read_palette(lines@, 0, None) == spec_read_palette(
                lines@,
                i as int,
                spec_held(palette_val),
            ),
        decreases count - i,
    {
        let found = match captures(KEY_VALUE, lines[i].as_str()) {
            Ok(found) => found,
            Err(_) => {
                return Err(SubError::Parse(String::from_str(KEY_VALUE)));
            },
        };
        palette_val = match apply_key_value(palette_val, &found) {
            Ok(next) => next,
            Err(e) => {
                return Err(e);
            },
        };
        i = i + 1;
    }
    match palette_val {
        Some(colors) => Ok(colors),
        None => Err(SubError::MissingKey("palette")),
    }
}

/// The content of a `*.idx` file and of the `*.sub` file that goes with it.
#[derive(Debug, Clone, PartialEq, Eq)]
pub struct Index {
    /// The colors used for the subtitles.
    palette: Palette,
    /// Our compressed subtitle data.
    sub_data: Vec<u8>,
}

impl Index {
    /// The colors used for the subtitles.
    pub closed spec fn spec_palette(&self) -> Palette {
        self.palette
    }

    /// The compressed subtitle data.
    pub closed spec fn spec_sub_data(&self) -> Seq<u8> {
        self.sub_data@
    }

    /// Create an Index from a palette and sub data
    ///
    /// # Errors
    ///
    /// None: it always returns the index.
    pub fn init(palette: Palette, sub_data: Vec<u8>) -> (r: Result<Index, SubError>)
        ensures
            r matches Ok(index) && index.spec_palette() == palette && index.spec_sub_data()
                == sub_data@,
    {
        Ok(Index { palette, sub_data })
    }

    /// Get the palette associated with this `*.idx` file.
    pub fn palette(&self) -> (palette: &Palette)
        ensures
            *palette == self.spec_palette(),
    {
        &self.palette
    }

    /// The compressed subtitle data of the `*.sub` file.
    pub fn sub_data(&self) -> (data: &[u8])
        ensures
            data@ == self.spec_sub_data(),
    {
        self.sub_data.as_slice()
    }
}

} // verus!
