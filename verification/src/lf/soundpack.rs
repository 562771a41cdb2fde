//! Soundpack: decides which sound files to try for a frame sound, at most once per path every 5 TUs.
use vstd::prelude::*;
use crate::core_engine::util::trim_start;
use crate::text::{chars_of, string_from_chars, owned, string_push, has_char, copy_string};

verus! {

pub struct Soundpack {
    enabled: bool,
    asset_root: String,
    /// paths played since the buffer was last cleared
    buffer: Vec<String>,
    time: u32,
}

/// `s` without its trailing `c` characters.
pub open spec fn trim_end(s: Seq<char>, c: char) -> Seq<char>
    decreases s.len(),
{
    if s.len() > 0 && s.last() == c {
        trim_end(s.drop_last(), c)
    } else {
        s
    }
}

/// The files a sound path may live in: under the root, under `sound/`, and under the
/// root with the path's leading slashes dropped.
pub open spec fn sound_bases(root: Seq<char>, path: Seq<char>) -> Seq<Seq<char>> {
    seq![root + "/"@ + path, root + "/sound/"@ + path, root + "/"@ + trim_start(path, '/')]
}

/// The URLs tried for one base: a base with a `.` is tried as it is, once per
/// extension slot (four times); a base without one is tried as `.wav`, `.ogg`, `.mp3`.
pub open spec fn base_urls(base: Seq<char>) -> Seq<Seq<char>> {
    if base.contains('.') {
        seq![base, base, base, base]
    } else {
        seq![base + ".wav"@, base + ".ogg"@, base + ".mp3"@]
    }
}

/// Every URL tried for a sound path, in order.
pub open spec fn sound_urls(root: Seq<char>, path: Seq<char>) -> Seq<Seq<char>> {
    let b = sound_bases(root, path);
    base_urls(b[0]) + base_urls(b[1]) + base_urls(b[2])
}

/// The characters of each string.
pub open spec fn string_seq(v: Seq<String>) -> Seq<Seq<char>> {
    v.map_values(|s: String| s@)
}

fn cat(a: &Vec<char>, b: &str, c: &Vec<char>) -> (r: Vec<char>)
    ensures
        r@ == a@ + b@ + c@,
{
    let mut out: Vec<char> = Vec::new();
    let bs = chars_of(b);
    let mut i: usize = 0;
    while i < a.len()
        invariant
            i <= a@.len(),
            out@ == a@.subrange(0, i as int),
        decreases a@.len() - i,
    {
        out.push(a[i]);
        i = i + 1;
        assert(out@ =~= a@.subrange(0, i as int));
    }
    let mut j: usize = 0;
    while j < bs.len()
        invariant
            i == a@.len(),
            j <= bs@.len(),
            out@ == a@ + bs@.subrange(0, j as int),
        decreases bs@.len() - j,
    {
        out.push(bs[j]);
        j = j + 1;
        assert(out@ =~= a@ + bs@.subrange(0, j as int));
    }
    let mut k: usize = 0;
    while k < c.len()
        invariant
            j == bs@.len(),
            bs@ == b@,
            k <= c@.len(),
            out@ == a@ + bs@ + c@.subrange(0, k as int),
        decreases c@.len() - k,
    {
        out.push(c[k]);
        k = k + 1;
        assert(out@ =~= a@ + bs@ + c@.subrange(0, k as int));
    }
    assert(a@.subrange(0, a@.len() as int) =~= a@);
    assert(bs@.subrange(0, bs@.len() as int) =~= bs@);
    assert(c@.subrange(0, c@.len() as int) =~= c@);
    out
}

fn push_base_urls(out: &mut Vec<String>, base: &Vec<char>)
    ensures
        string_seq(final(out)@) == string_seq(old(out)@) + base_urls(base@),
{
    let ghost before = string_seq(out@);
    let none: Vec<char> = Vec::new();
    if has_char(base, '.') {
        out.push(string_from_chars(base));
        out.push(string_from_chars(base));
        out.push(string_from_chars(base));
        out.push(string_from_chars(base));
    } else {
        out.push(string_from_chars(&cat(base, ".wav", &none)));
        out.push(string_from_chars(&cat(base, ".ogg", &none)));
        out.push(string_from_chars(&cat(base, ".mp3", &none)));
        assert(base@ + ".wav"@ + none@ =~= base@ + ".wav"@);
        assert(base@ + ".ogg"@ + none@ =~= base@ + ".ogg"@);
        assert(base@ + ".mp3"@ + none@ =~= base@ + ".mp3"@);
    }
    assert(string_seq(out@) =~= before + base_urls(base@));
}

fn trim_leading(cs: &Vec<char>, c: char) -> (r: Vec<char>)
    ensures
        r@ == trim_start(cs@, c),
{
    let mut i: usize = 0;
    assert(cs@.subrange(0, cs@.len() as int) =~= cs@);
    while i < cs.len() && cs[i] == c
        invariant
            i <= cs@.len(),
            trim_start(cs@.subrange(i as int, cs@.len() as int), c) == trim_start(cs@, c),
        decreases cs@.len() - i,
    {
        let ghost rest = cs@.subrange(i as int, cs@.len() as int);
        assert(rest.drop_first() =~= cs@.subrange(i + 1, cs@.len() as int));
        i = i + 1;
    }
    let mut out: Vec<char> = Vec::new();
    let mut j: usize = i;
    while j < cs.len()
        invariant
            i <= j <= cs@.len(),
            out@ == cs@.subrange(i as int, j as int),
        decreases cs@.len() - j,
    {
        out.push(cs[j]);
        j = j + 1;
        assert(out@ =~= cs@.subrange(i as int, j as int));
    }
    out
}

impl Soundpack {
    /// Whether sounds are played.
    pub closed spec fn is_enabled(&self) -> bool {
        self.enabled
    }

    /// The sound root, without a trailing slash.
    pub closed spec fn root(&self) -> Seq<char> {
        self.asset_root@
    }

    /// The paths played since the buffer was last cleared.
    pub closed spec fn played(&self) -> Seq<Seq<char>> {
        string_seq(self.buffer@)
    }

    /// The soundpack's TU clock.
    pub closed spec fn clock(&self) -> u32 {
        self.time
    }

    pub fn new() -> (r: Self)
        ensures
            r.is_enabled(),
            r.root() == Seq::<char>::empty(),
            r.played() == Seq::<Seq<char>>::empty(),
            r.clock() == 0,
    {
        let r = Soundpack { enabled: true, asset_root: String::new(), buffer: Vec::new(), time: 0 };
        assert(r.played() =~= Seq::<Seq<char>>::empty());
        r
    }

    /// Whether sounds are played.
    pub fn enabled(&self) -> (r: bool)
        ensures
            r == self.is_enabled(),
    {
        self.enabled
    }

    /// Switch sound on or off.
    pub fn set_enabled(&mut self, on: bool)
        ensures
            final(self).is_enabled() == on,
            final(self).root() == old(self).root(),
            final(self).played() == old(self).played(),
            final(self).clock() == old(self).clock(),
    {
        self.enabled = on;
    }

    /// Set the asset root; trailing slashes are dropped.
    pub fn set_root(&mut self, root: &str)
        ensures
            final(self).root() == trim_end(root@, '/'),
            final(self).is_enabled() == old(self).is_enabled(),
            final(self).played() == old(self).played(),
            final(self).clock() == old(self).clock(),
    {
        let cs = chars_of(root);
        let mut n: usize = cs.len();
        assert(cs@.subrange(0, n as int) =~= cs@);
        while n > 0 && cs[n - 1] == '/'
            invariant
                n <= cs@.len(),
                trim_end(cs@.subrange(0, n as int), '/') == trim_end(cs@, '/'),
            decreases n,
        {
            assert(cs@.subrange(0, n as int).drop_last() =~= cs@.subrange(0, n - 1));
            n = n - 1;
        }
        self.asset_root = crate::text::string_from_range(&cs, 0, n);
    }

    /// Whether `path` has been played since the buffer was last cleared.
    fn already_played(&self, path: &String) -> (r: bool)
        ensures
            r == self.played().contains(path@),
    {
        let mut i: usize = 0;
        while i < self.buffer.len()
            invariant
                i <= self.buffer@.len(),
                forall|j: int| 0 <= j < i ==> self.played()[j] != path@,
            decreases self.buffer@.len() - i,
        {
            if self.buffer[i] == *path {
                assert(self.played()[i as int] == path@);
                return true;
            }
            i = i + 1;
        }
        false
    }

    /// Play a frame sound: when sound is enabled, the path is not empty and it has not
    /// been played since the buffer was last cleared, the path is remembered and the
    /// URLs to try, in order, are returned; the first that plays is used.
    pub fn play(&mut self, path: &str) -> (r: Vec<String>)
        ensures
            final(self).is_enabled() == old(self).is_enabled(),
            final(self).root() == old(self).root(),
            final(self).clock() == old(self).clock(),
            (!old(self).is_enabled() || path@.len() == 0 || old(self).played().contains(path@)) ==> {
                &&& r@.len() == 0
                &&& final(self).played() == old(self).played()
            },
            (old(self).is_enabled() && path@.len() > 0 && !old(self).played().contains(path@)) ==> {
                &&& string_seq(r@) == sound_urls(old(self).root(), path@)
                &&& final(self).played() == old(self).played().push(path@)
            },
    {
        if !self.enabled || path.is_empty() {
            return Vec::new();
        }
        let p = owned(path);
        if self.already_played(&p) {
            return Vec::new();
        }
        let ghost before = self.played();
        self.buffer.push(copy_string(&p));
        assert(self.played() =~= before.push(path@));
        let root = chars_of(self.asset_root.as_str());
        let pc = chars_of(path);
        let trimmed = trim_leading(&pc, '/');
        let b0 = cat(&root, "/", &pc);
        let b1 = cat(&root, "/sound/", &pc);
        let b2 = cat(&root, "/", &trimmed);
        let mut out: Vec<String> = Vec::new();
        push_base_urls(&mut out, &b0);
        push_base_urls(&mut out, &b1);
        push_base_urls(&mut out, &b2);
        assert(string_seq(out@) =~= sound_urls(self.root(), path@));
        out
    }

    /// One TU: every fifth TU the played-paths buffer is cleared.
    pub fn tu(&mut self)
        requires
            old(self).clock() < u32::MAX,
        ensures
            final(self).clock() == old(self).clock() + 1,
            final(self).played() == (if (old(self).clock() + 1) % 5 == 0 {
                Seq::<Seq<char>>::empty()
            } else {
                old(self).played()
            }),
            final(self).is_enabled() == old(self).is_enabled(),
            final(self).root() == old(self).root(),
    {
        self.time = self.time + 1;
        if self.time % 5 == 0 {
            self.buffer.clear();
            assert(self.played() =~= Seq::<Seq<char>>::empty());
        }
    }
}

} // verus!

verus! {

/// A sound path is tried in nine to twelve places, each under the root.
pub proof fn law_sound_urls_under_root(root: Seq<char>, path: Seq<char>)
    ensures
        9 <= sound_urls(root, path).len() <= 12,
        forall|i: int|
            0 <= i < sound_urls(root, path).len() ==> (#[trigger] sound_urls(root, path)[i]).subrange(
                0,
                root.len() as int,
            ) == root,
{
    let b = sound_bases(root, path);
    assert forall|j: int| 0 <= j < 3 implies #[trigger] b[j].subrange(0, root.len() as int) == root by {
        assert(b[j].subrange(0, root.len() as int) =~= root);
    }
    let u = sound_urls(root, path);
    assert forall|i: int| 0 <= i < u.len() implies (#[trigger] u[i]).subrange(0, root.len() as int)
        == root by {
        let l0 = base_urls(b[0]).len();
        let l1 = base_urls(b[1]).len();
        let j: int = if i < l0 {
            0
        } else if i < l0 + l1 {
            1
        } else {
            2
        };
        let bj = b[j];
        assert(bj.subrange(0, root.len() as int) == root);
        assert(u[i] == bj || u[i] == bj + ".wav"@ || u[i] == bj + ".ogg"@ || u[i] == bj + ".mp3"@);
        if u[i] != bj {
            assert(u[i].subrange(0, root.len() as int) =~= bj.subrange(0, root.len() as int));
        }
    }
}

} // verus!

verus! {

/// A path just played is among the played paths, so playing it again before the
/// buffer is cleared tries nothing; once cleared, every non-empty path plays again.
pub proof fn law_played_once_per_window(played: Seq<Seq<char>>, path: Seq<char>)
    ensures
        played.push(path).contains(path),
        !Seq::<Seq<char>>::empty().contains(path),
{
    assert(played.push(path)[played.len() as int] == path);
}

} // verus!
