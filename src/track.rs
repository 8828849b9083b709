use vstd::prelude::*;
use vstd::string::StringExecFns;

verus! {

/// The character of a decimal digit `d < 10`.
pub open spec fn digit_char(d: nat) -> char {
    if d == 0 { '0' } else if d == 1 { '1' } else if d == 2 { '2' } else if d == 3 { '3' }
    else if d == 4 { '4' } else if d == 5 { '5' } else if d == 6 { '6' } else if d == 7 { '7' }
    else if d == 8 { '8' } else { '9' }
}

/// The decimal notation of `n`, without leading zeros.
pub open spec fn decimal(n: nat) -> Seq<char>
    decreases n,
{
    if n < 10 {
        seq![digit_char(n)]
    } else {
        decimal(n / 10) + seq![digit_char(n % 10)]
    }
}

fn digit_str(d: u64) -> (r: &'static str)
    requires
        d < 10,
    ensures
        r@ == seq![digit_char(d as nat)],
{
    proof {
        reveal_strlit("0");
        reveal_strlit("1");
        reveal_strlit("2");
        reveal_strlit("3");
        reveal_strlit("4");
        reveal_strlit("5");
        reveal_strlit("6");
        reveal_strlit("7");
        reveal_strlit("8");
        reveal_strlit("9");
    }
    if d == 0 { "0" } else if d == 1 { "1" } else if d == 2 { "2" } else if d == 3 { "3" }
    else if d == 4 { "4" } else if d == 5 { "5" } else if d == 6 { "6" } else if d == 7 { "7" }
    else if d == 8 { "8" } else { "9" }
}

/// Appends the decimal notation of `n` to `s`.
pub fn push_decimal(s: &mut String, n: u64)
    ensures
        final(s)@ == old(s)@ + decimal(n as nat),
    decreases n,
{
    if n >= 10 {
        push_decimal(s, n / 10);
    }
    s.append(digit_str(n % 10));
    assert(final(s)@ =~= old(s)@ + decimal(n as nat));
}

/// What `get_duration_str` shows for a length of `secs` seconds: whole minutes,
/// a colon, then the remaining seconds on two digits.
pub open spec fn duration_text(secs: nat) -> Seq<char> {
    decimal(secs / 60) + seq![':'] + (if secs % 60 < 10 { seq!['0'] } else { seq![] })
        + decimal(secs % 60)
}

/// Why a source could not be turned into a queued track.
#[derive(Clone, Copy, Debug, PartialEq, Eq, Structural)]
pub enum ResolveError {
    /// The resolver could not reach or read the source.
    Unavailable,
    /// The resolver answered without a title, a duration or a thumbnail.
    IncompleteMetadata,
}

/// One queued item: display metadata and the handle of its audio source.
pub struct Track<S> {
    pub src: S,
    pub title: String,
    pub duration_secs: u64,
    pub image: String,
}

impl<S> Track<S> {
    /// Builds a track from what the resolver reported for `src`; every piece of
    /// metadata must be present.
    pub fn from_src(
        src: S,
        title: Option<String>,
        duration_secs: Option<u64>,
        image: Option<String>,
    ) -> (r: Result<Track<S>, ResolveError>)
        ensures
            (title is Some && duration_secs is Some && image is Some) <==> r is Ok,
            r is Err ==> r->Err_0 == ResolveError::IncompleteMetadata,
            r matches Ok(t) ==> t.src == src && t.title@ == title->Some_0@ && t.duration_secs
                == duration_secs->Some_0 && t.image@ == image->Some_0@,
    {
        match (title, duration_secs, image) {
            (Some(title), Some(duration_secs), Some(image)) => Ok(Track { src, title, duration_secs, image }),
            _ => Err(ResolveError::IncompleteMetadata),
        }
    }

    /// The track's length as `m:ss`.
    pub fn get_duration_str(&self) -> (r: String)
        ensures
            r@ == duration_text(self.duration_secs as nat),
    {
        let secs: u64 = self.duration_secs % 60;
        let mut s = String::new();
        push_decimal(&mut s, self.duration_secs / 60);
        s.append(":");
        if secs < 10 {
            s.append("0");
        }
        push_decimal(&mut s, secs);
        proof {
            reveal_strlit(":");
            reveal_strlit("0");
        }
        assert(s@ =~= duration_text(self.duration_secs as nat));
        s
    }
}

} // verus!
