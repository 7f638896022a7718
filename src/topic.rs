//! Broker topics: how they are built from a base, a device and an entity
//! name, and how an inbound command topic is taken apart.

use vstd::prelude::*;

verus! {

/// `a/b`
pub open spec fn join(a: Seq<char>, b: Seq<char>) -> Seq<char> {
    a + seq!['/'] + b
}

/// No character of `s` is a slash.
pub open spec fn slash_free(s: Seq<char>) -> bool {
    forall|i: int| 0 <= i < s.len() ==> s[i] != '/'
}

/// `s` holds exactly one slash, at `i`.
pub open spec fn single_slash_at(s: Seq<char>, i: int) -> bool {
    &&& 0 <= i < s.len()
    &&& s[i] == '/'
    &&& slash_free(s.take(i))
    &&& slash_free(s.skip(i + 1))
}

/// `s` holds exactly one slash.
pub open spec fn single_slash(s: Seq<char>) -> bool {
    exists|i: int| single_slash_at(s, i)
}

/// `base/device/availability`
pub open spec fn availability_topic_of(base: Seq<char>, device_id: Seq<char>) -> Seq<char> {
    join(join(base, device_id), "availability"@)
}

/// `device_base/name/state`
pub open spec fn state_topic_of(device_base: Seq<char>, name: Seq<char>) -> Seq<char> {
    join(join(device_base, name), "state"@)
}

/// `device_base/name/command`
pub open spec fn command_topic_of(device_base: Seq<char>, name: Seq<char>) -> Seq<char> {
    join(join(device_base, name), "command"@)
}

/// `topic` is the command topic of the command `name` under `device_base`, and
/// splitting `topic` at its slashes gives exactly base, device, name and `command`.
pub open spec fn is_command_topic(topic: Seq<char>, device_base: Seq<char>, name: Seq<char>) -> bool {
    &&& single_slash(device_base)
    &&& slash_free(name)
    &&& topic == command_topic_of(device_base, name)
}

/// Joins two topic levels with a slash.
pub fn join_levels(a: &str, b: &str) -> (r: String)
    ensures
        r@ == join(a@, b@),
{
    let mut r = String::from_str(a);
    proof {
        reveal_strlit("/");
    }
    r.append("/");
    r.append(b);
    r
}

/// The topic under which everything of one device lives: `base/device`.
pub fn device_base(base: &str, device_id: &str) -> (r: String)
    ensures
        r@ == join(base@, device_id@),
{
    join_levels(base, device_id)
}

/// The device-wide availability topic: `base/device/availability`.
pub fn availability_topic(base: &str, device_id: &str) -> (r: String)
    ensures
        r@ == availability_topic_of(base@, device_id@),
{
    let d = device_base(base, device_id);
    join_levels(d.as_str(), "availability")
}

/// The state topic of a collector or command: `device_base/name/state`.
pub fn state_topic(device_base: &str, name: &str) -> (r: String)
    ensures
        r@ == state_topic_of(device_base@, name@),
{
    let n = join_levels(device_base, name);
    join_levels(n.as_str(), "state")
}

/// The command topic of a command: `device_base/name/command`.
pub fn command_topic(device_base: &str, name: &str) -> (r: String)
    ensures
        r@ == command_topic_of(device_base@, name@),
{
    let n = join_levels(device_base, name);
    join_levels(n.as_str(), "command")
}

/// Index of the first slash of `s`, if any.
fn first_slash(s: &str) -> (r: Option<usize>)
    ensures
        match r {
            Some(i) => i < s@.len() && s@[i as int] == '/' && slash_free(s@.take(i as int)),
            None => slash_free(s@),
        },
{
    let n = s.unicode_len();
    let mut i: usize = 0;
    while i < n
        invariant
            n == s@.len(),
            i <= n,
            slash_free(s@.take(i as int)),
        decreases n - i,
    {
        if s.get_char(i) == '/' {
            return Some(i);
        }
        assert(s@.take(i as int + 1) =~= s@.take(i as int).push(s@[i as int]));
        i = i + 1;
    }
    assert(s@.take(n as int) =~= s@);
    None
}

/// Whether the characters of `s` from `from` to `to` hold no slash.
fn slash_free_between(s: &str, from: usize, to: usize) -> (r: bool)
    requires
        from <= to <= s@.len(),
    ensures
        r == slash_free(s@.subrange(from as int, to as int)),
{
    let mut i: usize = from;
    while i < to
        invariant
            from <= i <= to <= s@.len(),
            slash_free(s@.subrange(from as int, i as int)),
        decreases to - i,
    {
        if s.get_char(i) == '/' {
            assert(s@.subrange(from as int, to as int)[i - from] == '/');
            return false;
        }
        assert(s@.subrange(from as int, i as int + 1) =~= s@.subrange(from as int, i as int).push(s@[i as int]));
        i = i + 1;
    }
    true
}

/// Whether `s` holds exactly one slash.
pub fn has_single_slash(s: &str) -> (r: bool)
    ensures
        r == single_slash(s@),
{
    match first_slash(s) {
        None => {
            assert forall|i: int| !single_slash_at(s@, i) by {
                if 0 <= i < s@.len() {
                    assert(s@[i] != '/');
                }
            }
            false
        },
        Some(i) => {
            let n = s.unicode_len();
            let rest = slash_free_between(s, i + 1, n);
            assert(s@.skip(i as int + 1) =~= s@.subrange(i as int + 1, n as int));
            if rest {
                assert(single_slash_at(s@, i as int));
            } else {
                assert forall|k: int| !single_slash_at(s@, k) by {
                    if single_slash_at(s@, k) {
                        if k < i {
                            assert(s@.take(i as int)[k] == '/');
                        } else if k > i {
                            assert(s@.take(k)[i as int] == '/');
                        }
                    }
                }
            }
            rest
        },
    }
}

/// The command that an inbound topic triggers, if it is a command topic under
/// `device_base`: the topic must split at its slashes into exactly four levels,
/// the first two making up `device_base` and the last being `command`.
pub fn command_name(topic: &str, device_base: &str) -> (r: Option<String>)
    ensures
        match r {
            Some(name) => is_command_topic(topic@, device_base@, name@),
            None => forall|name: Seq<char>| !is_command_topic(topic@, device_base@, name),
        },
{
    proof {
        reveal_strlit("command");
        reveal_strlit("/command");
    }
    let ghost suffix: Seq<char> = seq!['/'] + "command"@;
    assert("/command"@ =~= suffix);
    assert forall|name: Seq<char>| #[trigger] command_topic_of(device_base@, name)
        =~= device_base@ + seq!['/'] + name + suffix by {}
    if !has_single_slash(device_base) {
        return None;
    }
    let t = topic.unicode_len();
    let b = device_base.unicode_len();
    if b > t || t - b < 9 {
        return None;
    }
    let head = String::from_str(topic.substring_char(0, b));
    let base = String::from_str(device_base);
    if head != base {
        assert forall|name: Seq<char>| !is_command_topic(topic@, device_base@, name) by {
            if is_command_topic(topic@, device_base@, name) {
                assert(topic@.subrange(0, b as int) =~= device_base@);
            }
        }
        return None;
    }
    if topic.get_char(b) != '/' {
        assert forall|name: Seq<char>| !is_command_topic(topic@, device_base@, name) by {
            if is_command_topic(topic@, device_base@, name) {
                assert(topic@[b as int] == (device_base@ + seq!['/'] + name + suffix)[b as int]);
            }
        }
        return None;
    }
    let tail = String::from_str(topic.substring_char(t - 8, t));
    let command = String::from_str("/command");
    if tail != command {
        assert forall|name: Seq<char>| !is_command_topic(topic@, device_base@, name) by {
            if is_command_topic(topic@, device_base@, name) {
                assert(topic@.subrange(t - 8, t as int) =~= suffix);
            }
        }
        return None;
    }
    if !slash_free_between(topic, b + 1, t - 8) {
        assert forall|name: Seq<char>| !is_command_topic(topic@, device_base@, name) by {
            if is_command_topic(topic@, device_base@, name) {
                assert(topic@.subrange(b + 1, t - 8) =~= name);
            }
        }
        return None;
    }
    let name = String::from_str(topic.substring_char(b + 1, t - 8));
    assert(topic@ =~= device_base@ + seq!['/'] + name@ + suffix);
    Some(name)
}

/// `a_b`
pub open spec fn underscore(a: Seq<char>, b: Seq<char>) -> Seq<char> {
    a + seq!['_'] + b
}

/// Joins two parts of an identifier with an underscore.
pub fn join_id(a: &str, b: &str) -> (r: String)
    ensures
        r@ == underscore(a@, b@),
{
    let mut r = String::from_str(a);
    proof {
        reveal_strlit("_");
    }
    r.append("_");
    r.append(b);
    r
}

/// A command topic names exactly one command.
pub proof fn lemma_command_topic_names_one(device_base: Seq<char>, a: Seq<char>, b: Seq<char>)
    requires
        command_topic_of(device_base, a) == command_topic_of(device_base, b),
    ensures
        a == b,
{
    let sa = command_topic_of(device_base, a);
    let sb = command_topic_of(device_base, b);
    assert(sa.len() == device_base.len() + a.len() + 1 + 1 + "command"@.len());
    assert(a.len() == b.len());
    let start = device_base.len() as int + 1;
    assert(a =~= sa.subrange(start, start + a.len()));
    assert(b =~= sb.subrange(start, start + b.len()));
}

} // verus!
