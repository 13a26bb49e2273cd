use vstd::prelude::*;
use crate::de::{flag, from_str, object, required, Decode, DecodeError, Verdict};
use crate::json::Json;
use crate::digits::{is_counted_before, trim_zeros};
use crate::text::{str_eq, str_is_empty};

/// `Journal.<timestamp>.<part>.log`
///
/// These files store a list of events in JSON lines format. This means that
/// each line is a complete JSON object.
///
/// Each incremental journal file begins with a
/// [`Fileheader`][incremental::Event::Fileheader] event which, in addition to
/// some other metadata, also contains the `part` of the log.
pub mod incremental;

/// `Market.json`
pub mod market;

/// `NavRoute.json`
pub mod route;

pub use self::incremental::Event;
pub use self::market::Market;
pub use self::route::NavRoute;

verus! {

/// An instant: the seconds since the start of 1970 in UTC, leap seconds not
/// counted, and the nanoseconds since that second began.
#[derive(Clone, Copy, Debug, PartialEq, Eq, Structural)]
pub struct Timestamp {
    pub seconds: i64,
    pub nanos: u32,
}

/// The instant that a text spells, as seconds and nanoseconds, or nothing
/// where the text is no date and time.
///
/// This names what `chrono` makes of the text when it parses it as a
/// `DateTime<Utc>`: its `timestamp()` and its `timestamp_subsec_nanos()`. The
/// format is that crate's relaxed RFC 3339; nothing more is said of it here.
pub uninterp spec fn instant(text: Seq<char>) -> Option<(i64, u32)>;

/// `<chrono::DateTime<chrono::Utc> as FromStr>::from_str`, with the instant
/// read off by `timestamp` and `timestamp_subsec_nanos`: the contract says
/// only that the outcome is the one [`instant`] names for this text.
#[verifier::external_body]
fn read_instant(text: &str) -> (r: Option<(i64, u32)>)
    ensures
        r == instant(text@),
{
    match text.parse::<chrono::DateTime<chrono::Utc>>() {
        Ok(t) => Some((t.timestamp(), t.timestamp_subsec_nanos())),
        Err(_) => None,
    }
}

impl Timestamp {
    /// What a document comes to as an instant: a string that spells one gives
    /// it, anything else is refused.
    pub open spec fn of(json: Json) -> Result<Timestamp, DecodeError> {
        match json {
            Json::String(s) => Self::at(instant(s@)),
            _ => Err(DecodeError::Structure),
        }
    }

    /// The timestamp for what a text was read as.
    pub open spec fn at(instant: Option<(i64, u32)>) -> Result<Timestamp, DecodeError> {
        match instant {
            Some((seconds, nanos)) => Ok(Timestamp { seconds, nanos }),
            None => Err(DecodeError::Structure),
        }
    }

    /// Makes a timestamp of what a text was read as: a text that is no date
    /// and time has the wrong shape.
    pub fn from_instant(instant: Option<(i64, u32)>) -> (r: Result<Timestamp, DecodeError>)
        ensures
            r == Self::at(instant),
    {
        match instant {
            Some((seconds, nanos)) => Ok(Timestamp { seconds, nanos }),
            None => Err(DecodeError::Structure),
        }
    }
}

impl Decode for Timestamp {
    open spec fn verdict(json: Json) -> Verdict {
        Verdict::of(Self::of(json))
    }

    open spec fn agrees(&self, json: Json) -> bool {
        Self::of(json) == Ok::<Timestamp, DecodeError>(*self)
    }

    fn decode(json: &Json) -> (r: Result<Timestamp, DecodeError>) {
        match json {
            Json::String(s) => Self::from_instant(read_instant(s.as_str())),
            _ => Err(DecodeError::Structure),
        }
    }
}

/// A single timestamped entry, containing an [`Event`], a [`NavRoute`], etc.
///
/// The members of the event stand beside `timestamp` in one object.
#[derive(Debug, PartialEq)]
pub struct Entry<E> {
    pub timestamp: Timestamp,
    pub event: E,
    /// Whether the line was written with the *Horizons* expansion.
    pub horizons: bool,
    /// Whether the line was written with the *Odyssey* expansion.
    pub odyssey: bool,
}

impl<E: Decode> Decode for Entry<E> {
    open spec fn verdict(json: Json) -> Verdict {
        Verdict::object(json)
            .and(Verdict::required::<Timestamp>(json, "timestamp"@))
            .and(E::verdict(json))
            .and(Verdict::flag(json, "horizons"@))
            .and(Verdict::flag(json, "odyssey"@))
    }

    open spec fn agrees(&self, json: Json) -> bool {
        &&& json.gives("timestamp"@, &self.timestamp)
        &&& self.event.agrees(json)
        &&& json.gives_flag("horizons"@, self.horizons)
        &&& json.gives_flag("odyssey"@, self.odyssey)
    }

    fn decode(json: &Json) -> (r: Result<Entry<E>, DecodeError>) {
        object(json)?;
        let timestamp = required::<Timestamp>(json, "timestamp")?;
        let event = E::decode(json)?;
        let horizons = flag(json, "horizons")?;
        let odyssey = flag(json, "odyssey")?;
        Ok(Entry { timestamp, event, horizons, odyssey })
    }
}

/// A line of a journal file that was not decoded
#[derive(Clone, Copy, Debug, PartialEq, Eq, Structural)]
pub struct LineError {
    /// The place of the file among those that were handed in, from zero.
    pub file: usize,
    /// The place of the line in its file, from zero.
    pub line: usize,
    pub error: DecodeError,
}

/// One journal file as it was read: its name, and its lines without their
/// line ends.
#[derive(Debug)]
pub struct JournalFile {
    pub name: String,
    pub lines: Vec<String>,
}

/// What a set of journal files holds: the entries of the lines that were
/// decoded, in the order of the lines, and the lines that were not, each with
/// its error.
#[derive(Debug)]
pub struct Journal {
    pub entries: Vec<Entry<Event>>,
    pub errors: Vec<LineError>,
}

/// Whether a character may stand in the date of the name of a journal file:
/// a digit, `-` or `T`.
pub open spec fn is_date_char(c: char) -> bool {
    ('0' <= c && c <= '9') || c == '-' || c == 'T'
}

/// Whether `name` is the name of a journal file:
/// `Journal.<date>.<part>.log`, where the date is made of digits, `-` and
/// `T`, and the part of digits, and neither is empty. The full stop at index
/// `stop` parts the two.
pub open spec fn journal_name_at(name: Seq<char>, stop: int) -> bool {
    &&& 8 < stop < name.len() - 5
    &&& name.subrange(0, 8) == "Journal."@
    &&& name.subrange(name.len() - 4, name.len() as int) == ".log"@
    &&& name[stop] == '.'
    &&& forall|i: int| 8 <= i < stop ==> is_date_char(#[trigger] name[i])
    &&& forall|i: int| stop < i < name.len() - 4 ==> crate::digits::is_digit(#[trigger] name[i])
}

/// Whether `name` is the name of a journal file.
pub open spec fn journal_name(name: Seq<char>) -> bool {
    exists|stop: int| journal_name_at(name, stop)
}

/// Where the full stop between the date and the part stands in the name of a
/// journal file.
pub open spec fn stop_of(name: Seq<char>) -> int {
    choose|stop: int| journal_name_at(name, stop)
}

/// The date in the name of a journal file, as it is written there.
pub open spec fn date_of(name: Seq<char>) -> Seq<char> {
    name.subrange(8, stop_of(name))
}

/// The part in the name of a journal file, as it is written there.
pub open spec fn part_of(name: Seq<char>) -> Seq<char> {
    name.subrange(stop_of(name) + 1, name.len() - 4)
}

/// The date cannot end in two places: it holds no full stop, so the first
/// full stop behind `Journal.` ends it.
pub proof fn lemma_one_stop(name: Seq<char>, a: int, b: int)
    requires
        journal_name_at(name, a),
        journal_name_at(name, b),
    ensures
        a == b,
{
    if a < b {
        assert(is_date_char(name[a]));
    } else if b < a {
        assert(is_date_char(name[b]));
    }
}

/// The date of a name brought to one form, the digits of year, month, day,
/// hour, minute and second. The game has written `210520180102` and
/// `2021-05-20T180102` for one instant: signs between the digits are left
/// out, and twelve digits, which begin with a year of two digits, get the
/// century before them.
pub open spec fn date_key(date: Seq<char>) -> Seq<char> {
    if crate::digits::digits_of(date).len() == 12 {
        "20"@ + crate::digits::digits_of(date)
    } else {
        crate::digits::digits_of(date)
    }
}

/// Whether the journal file called `a` was begun before the one called `b`,
/// going by their names: its date, brought to one form and read as a number,
/// is below the other, or the dates are the same and the number of its part
/// is below the other.
pub open spec fn begun_before(a: Seq<char>, b: Seq<char>) -> bool {
    &&& journal_name(a)
    &&& journal_name(b)
    &&& crate::digits::counts_before(date_key(date_of(a)), date_key(date_of(b))) || (crate::digits::counts_same(
        date_key(date_of(a)),
        date_key(date_of(b)),
    ) && crate::digits::counts_before(part_of(a), part_of(b)))
}

/// No file was begun before itself.
pub proof fn lemma_begun_before_differs(a: Seq<char>)
    ensures
        !begun_before(a, a),
{
    crate::digits::lemma_counts_before_differs(date_key(date_of(a)));
    crate::digits::lemma_counts_before_differs(part_of(a));
}

/// A file begun before another was begun before every file that the other
/// was begun before.
pub proof fn lemma_begun_before_transitive(a: Seq<char>, b: Seq<char>, c: Seq<char>)
    requires
        begun_before(a, b),
        begun_before(b, c),
    ensures
        begun_before(a, c),
{
    let (da, db, dc) = (date_key(date_of(a)), date_key(date_of(b)), date_key(date_of(c)));
    if crate::digits::counts_before(da, db) && crate::digits::counts_before(db, dc) {
        crate::digits::lemma_counts_before_transitive(da, db, dc);
    } else if crate::digits::counts_same(da, db) && crate::digits::counts_same(db, dc) {
        crate::digits::lemma_counts_before_transitive(part_of(a), part_of(b), part_of(c));
    }
}

/// The order of the names is the order of what they say: a file was begun
/// before another exactly where its date, brought to one form, writes the
/// lower number, or the dates write the same number and its part writes the
/// lower number.
pub proof fn lemma_begun_before_by_value(a: Seq<char>, b: Seq<char>)
    requires
        journal_name(a),
        journal_name(b),
    ensures
        begun_before(a, b) <==> {
            let date_a = crate::digits::number(date_key(date_of(a)));
            let date_b = crate::digits::number(date_key(date_of(b)));
            let part_a = crate::digits::number(part_of(a));
            let part_b = crate::digits::number(part_of(b));
            date_a < date_b || (date_a == date_b && part_a < part_b)
        },
{
    reveal_strlit("20");
    crate::digits::lemma_digits_of(date_of(a));
    crate::digits::lemma_digits_of(date_of(b));
    assert(journal_name_at(a, stop_of(a)));
    assert(journal_name_at(b, stop_of(b)));
    assert(crate::digits::all_digits(part_of(a))) by {
        assert forall|i: int| 0 <= i < part_of(a).len() implies crate::digits::is_digit(
            #[trigger] part_of(a)[i],
        ) by {
            assert(part_of(a)[i] == a[stop_of(a) + 1 + i]);
        }
    }
    assert(crate::digits::all_digits(part_of(b))) by {
        assert forall|i: int| 0 <= i < part_of(b).len() implies crate::digits::is_digit(
            #[trigger] part_of(b)[i],
        ) by {
            assert(part_of(b)[i] == b[stop_of(b) + 1 + i]);
        }
    }
    crate::digits::lemma_counts_by_value(date_key(date_of(a)), date_key(date_of(b)));
    crate::digits::lemma_counts_by_value(part_of(a), part_of(b));
}

/// Whether the characters of `name` from index `from` on are those of `word`.
fn holds_at(name: &str, from: usize, word: &str) -> (r: bool)
    requires
        from + word@.len() <= name@.len() <= usize::MAX,
    ensures
        r == (name@.subrange(from as int, from + word@.len()) == word@),
{
    let n = word.unicode_len();
    let mut i: usize = 0;
    while i < n
        invariant
            i <= n,
            n == word@.len(),
            from + n <= name@.len() <= usize::MAX,
            forall|k: int| 0 <= k < i ==> name@[from + k] == word@[k],
        decreases n - i,
    {
        if name.get_char(from + i) != word.get_char(i) {
            assert(name@.subrange(from as int, from + n)[i as int] == name@[from + i]);
            return false;
        }
        i += 1;
    }
    assert(name@.subrange(from as int, from + n) =~= word@);
    true
}

/// Finds the full stop that parts the date from the part in the name of a
/// journal file, `Journal.<date>.<part>.log`; none where the file goes by
/// another name.
pub fn journal_name_stop(name: &str) -> (r: Option<usize>)
    ensures
        match r {
            Some(stop) => journal_name_at(name@, stop as int),
            None => !journal_name(name@),
        },
{
    let n = name.unicode_len();
    proof {
        reveal_strlit("Journal.");
        reveal_strlit(".log");
    }
    if n < 15 {
        return None;
    }
    if !holds_at(name, 0, "Journal.") || !holds_at(name, n - 4, ".log") {
        return None;
    }
    let mut stop: usize = 8;
    while stop < n - 4 && name.get_char(stop) != '.'
        invariant
            8 <= stop <= n - 4,
            n == name@.len(),
            forall|i: int| 8 <= i < stop ==> name@[i] != '.',
        decreases n - stop,
    {
        stop += 1;
    }
    // The date holds no full stop, so the first one behind `Journal.` is the
    // only place where the date can end.
    assert forall|other: int| journal_name_at(name@, other) implies other == stop by {
        if other < stop {
            assert(name@[other] == '.');
        } else if other > stop {
            assert(is_date_char(name@[stop as int]));
        }
    }
    if stop >= n - 5 || stop == 8 {
        return None;
    }
    let mut i: usize = 8;
    while i < stop
        invariant
            8 <= i <= stop < n - 5,
            n == name@.len(),
            forall|other: int| journal_name_at(name@, other) ==> other == stop,
            forall|k: int| 8 <= k < i ==> is_date_char(#[trigger] name@[k]),
        decreases stop - i,
    {
        let c = name.get_char(i);
        if !(('0' <= c && c <= '9') || c == '-' || c == 'T') {
            assert(!is_date_char(name@[i as int]));
            return None;
        }
        i += 1;
    }
    let mut j: usize = stop + 1;
    while j < n - 4
        invariant
            stop < j <= n - 4,
            8 < stop < n - 5,
            n == name@.len(),
            forall|other: int| journal_name_at(name@, other) ==> other == stop,
            forall|k: int| stop < k < j ==> crate::digits::is_digit(#[trigger] name@[k]),
        decreases n - j,
    {
        let c = name.get_char(j);
        if !('0' <= c && c <= '9') {
            assert(!crate::digits::is_digit(name@[j as int]));
            return None;
        }
        j += 1;
    }
    Some(stop)
}

/// Tells whether a file goes by the name of a journal file,
/// `Journal.<date>.<part>.log`.
pub fn is_journal_file(name: &str) -> (r: bool)
    ensures
        r == journal_name(name@),
{
    journal_name_stop(name).is_some()
}

/// Takes the date and the part out of the name of a journal file, as they are
/// written there; none where the file goes by another name.
pub fn journal_name_tokens(name: &str) -> (r: Option<(&str, &str)>)
    ensures
        match r {
            Some((date, part)) => {
                &&& journal_name(name@)
                &&& date@ == date_of(name@)
                &&& part@ == part_of(name@)
            },
            None => !journal_name(name@),
        },
{
    match journal_name_stop(name) {
        Some(stop) => {
            proof {
                lemma_one_stop(name@, stop as int, stop_of(name@));
            }
            let n = name.unicode_len();
            let date = name.substring_char(8, stop);
            let part = name.substring_char(stop + 1, n - 4);
            Some((date, part))
        },
        None => None,
    }
}

/// Brings the date of a name to one form.
pub fn date_key_of(date: &str) -> (r: String)
    ensures
        r@ == date_key(date@),
{
    let n = date.unicode_len();
    let mut digits = String::new();
    let mut i: usize = 0;
    assert(date@.take(0) =~= Seq::<char>::empty());
    while i < n
        invariant
            i <= n,
            n == date@.len(),
            digits@ == crate::digits::digits_of(date@.take(i as int)),
        decreases n - i,
    {
        let c = date.get_char(i);
        assert(date@.take(i + 1).drop_last() =~= date@.take(i as int));
        assert(date@.take(i + 1).last() == c);
        if '0' <= c && c <= '9' {
            let one = date.substring_char(i, i + 1);
            assert(one@ =~= seq![c]);
            digits.append(one);
            assert(digits@ =~= crate::digits::digits_of(date@.take(i as int)).push(c));
        }
        i += 1;
    }
    assert(date@.take(n as int) =~= date@);
    if digits.as_str().unicode_len() == 12 {
        let mut key = String::new();
        key.append("20");
        key.append(digits.as_str());
        assert(key@ =~= "20"@ + digits@);
        key
    } else {
        digits
    }
}

/// Tells whether one journal file was begun before another, going by their
/// names. A name that is not that of a journal file is before nothing, and
/// nothing is before it.
pub fn is_begun_before(a: &str, b: &str) -> (r: bool)
    ensures
        r == begun_before(a@, b@),
{
    match (journal_name_tokens(a), journal_name_tokens(b)) {
        (Some((date_a, part_a)), Some((date_b, part_b))) => {
            let key_a = date_key_of(date_a);
            let key_b = date_key_of(date_b);
            if is_counted_before(key_a.as_str(), key_b.as_str()) {
                true
            } else if str_eq(trim_zeros(key_a.as_str()), trim_zeros(key_b.as_str())) {
                is_counted_before(part_a, part_b)
            } else {
                false
            }
        },
        _ => false,
    }
}

/// Whether `order` puts the journal files among `files` in the order in which
/// they were begun: it lists the place of every file that goes by the name of
/// a journal file, each once and no other, and never a file behind one that
/// was begun after it.
pub open spec fn in_order_of_time(files: Seq<JournalFile>, order: Seq<usize>) -> bool {
    &&& forall|i: int|
        0 <= i < order.len() ==> (#[trigger] order[i]) < files.len() && journal_name(
            files[order[i] as int].name@,
        )
    &&& forall|i: int, j: int| 0 <= i < j < order.len() ==> order[i] != order[j]
    &&& forall|k: int|
        0 <= k < files.len() && journal_name((#[trigger] files[k]).name@) ==> order.contains(
            k as usize,
        )
    &&& forall|i: int, j: int|
        0 <= i < j < order.len() ==> !begun_before(
            files[order[j] as int].name@,
            files[order[i] as int].name@,
        )
}

/// Puts the journal files in the order in which they were begun, going by the
/// date and the part in their names: the places of the files, the earliest
/// first. Files that do not go by the name of a journal file are left out.
pub fn order_of_time(files: &Vec<JournalFile>) -> (order: Vec<usize>)
    ensures
        in_order_of_time(files@, order@),
{
    let mut order: Vec<usize> = Vec::new();
    let mut k: usize = 0;
    while k < files.len()
        invariant
            k <= files.len(),
            forall|i: int|
                0 <= i < order@.len() ==> (#[trigger] order@[i]) < k && journal_name(
                    files@[order@[i] as int].name@,
                ),
            forall|i: int, j: int| 0 <= i < j < order@.len() ==> order@[i] != order@[j],
            forall|f: int|
                0 <= f < k && journal_name((#[trigger] files@[f]).name@) ==> order@.contains(
                    f as usize,
                ),
            forall|i: int, j: int|
                0 <= i < j < order@.len() ==> !begun_before(
                    files@[order@[j] as int].name@,
                    files@[order@[i] as int].name@,
                ),
        decreases files.len() - k,
    {
        if is_journal_file(files[k].name.as_str()) {
            let mut p: usize = 0;
            while p < order.len() && !is_begun_before(
                files[k].name.as_str(),
                files[order[p]].name.as_str(),
            )
                invariant
                    p <= order@.len(),
                    k < files.len(),
                    forall|i: int| 0 <= i < order@.len() ==> (#[trigger] order@[i]) < k,
                    forall|i: int|
                        0 <= i < p ==> !begun_before(
                            files@[k as int].name@,
                            files@[(#[trigger] order@[i]) as int].name@,
                        ),
                decreases order@.len() - p,
            {
                p += 1;
            }
            let ghost before = order@;
            order.insert(p, k);
            proof {
                let now = order@;
                let name = files@[k as int].name@;
                assert forall|i: int, j: int| 0 <= i < j < now.len() implies now[i] != now[j]
                    && !begun_before(files@[now[j] as int].name@, files@[now[i] as int].name@) by {
                    if i == p {
                        let other = files@[before[j - 1] as int].name@;
                        assert(now[j] == before[j - 1]);
                        if begun_before(other, name) {
                            let at = files@[before[p as int] as int].name@;
                            lemma_begun_before_transitive(other, name, at);
                            lemma_begun_before_differs(at);
                        }
                    } else if j == p {
                        assert(now[i] == before[i]);
                    } else {
                        let a = if i < p {
                            i
                        } else {
                            i - 1
                        };
                        let b = if j < p {
                            j
                        } else {
                            j - 1
                        };
                        assert(now[i] == before[a] && now[j] == before[b]);
                    }
                }
                assert forall|f: int|
                    0 <= f < k + 1 && journal_name((#[trigger] files@[f]).name@) implies now.contains(
                    f as usize,
                ) by {
                    if f == k {
                        assert(now[p as int] == k);
                    } else {
                        let i = choose|i: int| 0 <= i < before.len() && before[i] == f as usize;
                        if i < p {
                            assert(now[i] == before[i]);
                        } else {
                            assert(now[i + 1] == before[i]);
                        }
                    }
                }
                assert forall|i: int| 0 <= i < now.len() implies (#[trigger] now[i]) < k + 1
                    && journal_name(files@[now[i] as int].name@) by {
                    if i < p {
                        assert(now[i] == before[i]);
                    } else if i > p {
                        assert(now[i] == before[i - 1]);
                    }
                }
            }
        }
        k += 1;
    }
    order
}

impl Journal {
    /// Whether `entries` and `errors` are what the first `upto` lines of the
    /// file number `file` come to. Going by the last of these lines: an empty
    /// one adds nothing; one that is accepted adds the entry that agrees with
    /// the document it spells; one that is refused adds its error with the
    /// place of the line.
    pub open spec fn reads(
        lines: Seq<String>,
        file: usize,
        upto: int,
        entries: Seq<Entry<Event>>,
        errors: Seq<LineError>,
    ) -> bool
        decreases upto,
    {
        if upto <= 0 {
            entries.len() == 0 && errors.len() == 0
        } else if lines[upto - 1]@.len() == 0 {
            Self::reads(lines, file, upto - 1, entries, errors)
        } else {
            let document = crate::json::document(lines[upto - 1]@);
            match Verdict::text::<Entry<Event>>(document) {
                Verdict::Accepted => {
                    &&& entries.len() > 0
                    &&& document matches Some(json)
                    &&& entries.last().agrees(json)
                    &&& Self::reads(lines, file, upto - 1, entries.drop_last(), errors)
                },
                Verdict::Refused(error) => {
                    &&& errors.len() > 0
                    &&& errors.last() == (LineError { file, line: (upto - 1) as usize, error })
                    &&& Self::reads(lines, file, upto - 1, entries, errors.drop_last())
                },
            }
        }
    }

    /// Whether `entries` and `errors` are what the first `upto` files come
    /// to: those of each file that goes by the name of a journal file, one
    /// file after the other in the order in which the files were handed in.
    /// A file of another name adds nothing.
    pub open spec fn gathers(
        files: Seq<JournalFile>,
        upto: int,
        entries: Seq<Entry<Event>>,
        errors: Seq<LineError>,
    ) -> bool
        decreases upto,
    {
        if upto <= 0 {
            entries.len() == 0 && errors.len() == 0
        } else if !journal_name(files[upto - 1].name@) {
            Self::gathers(files, upto - 1, entries, errors)
        } else {
            exists|k: int, m: int|
                {
                    &&& 0 <= k <= entries.len()
                    &&& 0 <= m <= errors.len()
                    &&& Self::gathers(files, upto - 1, #[trigger] entries.take(k), #[trigger] errors.take(m))
                    &&& Self::reads(
                        files[upto - 1].lines@,
                        (upto - 1) as usize,
                        files[upto - 1].lines@.len() as int,
                        entries.skip(k),
                        errors.skip(m),
                    )
                }
        }
    }

    /// Whether `entries` and `errors` are what the files come to that the
    /// first `upto` places of `order` name, taken in the order of `order`.
    /// A place that names no file, or a file of another name than that of a
    /// journal file, adds nothing. Every error carries the place that its
    /// file has in `files`.
    pub open spec fn gathers_in(
        files: Seq<JournalFile>,
        order: Seq<usize>,
        upto: int,
        entries: Seq<Entry<Event>>,
        errors: Seq<LineError>,
    ) -> bool
        decreases upto,
    {
        if upto <= 0 {
            entries.len() == 0 && errors.len() == 0
        } else if order[upto - 1] >= files.len() || !journal_name(
            files[order[upto - 1] as int].name@,
        ) {
            Self::gathers_in(files, order, upto - 1, entries, errors)
        } else {
            exists|k: int, m: int|
                {
                    &&& 0 <= k <= entries.len()
                    &&& 0 <= m <= errors.len()
                    &&& Self::gathers_in(
                        files,
                        order,
                        upto - 1,
                        #[trigger] entries.take(k),
                        #[trigger] errors.take(m),
                    )
                    &&& Self::reads(
                        files[order[upto - 1] as int].lines@,
                        order[upto - 1],
                        files[order[upto - 1] as int].lines@.len() as int,
                        entries.skip(k),
                        errors.skip(m),
                    )
                }
        }
    }

    /// A journal without entries and without errors.
    pub fn new() -> (r: Journal)
        ensures
            r.entries@.len() == 0,
            r.errors@.len() == 0,
    {
        Journal { entries: Vec::new(), errors: Vec::new() }
    }

    /// Files what one line came to: an entry goes to the end of the entries,
    /// an error to the end of the errors, with the place of the line.
    pub fn record(&mut self, file: usize, line: usize, outcome: Result<Entry<Event>, DecodeError>)
        ensures
            match outcome {
                Ok(entry) => {
                    &&& final(self).entries@ == old(self).entries@.push(entry)
                    &&& final(self).errors@ == old(self).errors@
                },
                Err(error) => {
                    &&& final(self).entries@ == old(self).entries@
                    &&& final(self).errors@ == old(self).errors@.push(
                        (LineError { file, line, error }),
                    )
                },
            },
    {
        match outcome {
            Ok(entry) => self.entries.push(entry),
            Err(error) => self.errors.push(LineError { file, line, error }),
        }
    }

    /// Decodes the lines of one file and files what they come to behind what
    /// the journal holds already.
    pub fn read(&mut self, file: usize, lines: &Vec<String>)
        ensures
            old(self).entries@.len() <= final(self).entries@.len(),
            old(self).errors@.len() <= final(self).errors@.len(),
            final(self).entries@.take(old(self).entries@.len() as int) == old(self).entries@,
            final(self).errors@.take(old(self).errors@.len() as int) == old(self).errors@,
            Self::reads(
                lines@,
                file,
                lines@.len() as int,
                final(self).entries@.skip(old(self).entries@.len() as int),
                final(self).errors@.skip(old(self).errors@.len() as int),
            ),
    {
        let ghost before = *self;
        let ghost a = self.entries@.len() as int;
        let ghost b = self.errors@.len() as int;
        let mut i: usize = 0;
        assert(self.entries@.take(a) =~= before.entries@);
        assert(self.errors@.take(b) =~= before.errors@);
        while i < lines.len()
            invariant
                i <= lines.len(),
                a == before.entries@.len(),
                b == before.errors@.len(),
                a <= self.entries@.len(),
                b <= self.errors@.len(),
                self.entries@.take(a) == before.entries@,
                self.errors@.take(b) == before.errors@,
                Self::reads(lines@, file, i as int, self.entries@.skip(a), self.errors@.skip(b)),
            decreases lines.len() - i,
        {
            let text = lines[i].as_str();
            let ghost entries = self.entries@;
            let ghost errors = self.errors@;
            if !str_is_empty(text) {
                let outcome = decode_line(text);
                let ghost filed = outcome;
                self.record(file, i, outcome);
                proof {
                    match filed {
                        Ok(entry) => {
                            assert(self.entries@.skip(a).drop_last() =~= entries.skip(a));
                            assert(self.entries@.skip(a).last() == entry);
                            assert(self.entries@.take(a) =~= entries.take(a));
                        },
                        Err(error) => {
                            assert(self.errors@.skip(b).drop_last() =~= errors.skip(b));
                            assert(self.errors@.skip(b).last() == (LineError {
                                file,
                                line: i,
                                error,
                            }));
                            assert(self.errors@.take(b) =~= errors.take(b));
                        },
                    }
                }
            }
            i += 1;
        }
    }
}

/// Decodes one line of a journal file.
///
/// A line of a kind that is not known decodes to an entry with
/// [`Event::Other`]. A line that is not a JSON object, or that lacks the
/// timestamp or the tag, is refused.
pub fn decode_line(text: &str) -> (r: Result<Entry<Event>, DecodeError>)
    ensures
        match r {
            Ok(entry) => crate::json::document(text@) matches Some(json) && Entry::<
                Event,
            >::verdict(json) is Accepted && entry.agrees(json),
            Err(e) => Verdict::text::<Entry<Event>>(crate::json::document(text@))
                == Verdict::Refused(e),
        },
{
    from_str::<Entry<Event>>(text)
}

/// Parse a single file's worth of journal entries
///
/// Every line that is not empty is decoded by itself. A line that is refused
/// does not end the reading: it is listed among the errors with its place,
/// and the lines after it are decoded like those before.
pub fn parse_journal_file(lines: &Vec<String>) -> (r: Journal)
    ensures
        Journal::reads(lines@, 0, lines@.len() as int, r.entries@, r.errors@),
{
    let mut journal = Journal::new();
    journal.read(0, lines);
    assert(journal.entries@.skip(0) =~= journal.entries@);
    assert(journal.errors@.skip(0) =~= journal.errors@);
    journal
}

/// Parse all journal files' entries in a directory
///
/// The files are taken in the order in which they are handed in, which is the
/// order in which the directory listed them. That order is whatever the file
/// system gives and need not be the order of time: a caller who wants the
/// entries in the order of time takes [`parse_journal_dir_in`] with
/// [`order_of_time`]. Files that do not go by the name of a journal file are
/// passed over.
pub fn parse_journal_dir(files: &Vec<JournalFile>) -> (r: Journal)
    ensures
        Journal::gathers(files@, files@.len() as int, r.entries@, r.errors@),
{
    let mut journal = Journal::new();
    let mut i: usize = 0;
    while i < files.len()
        invariant
            i <= files.len(),
            Journal::gathers(files@, i as int, journal.entries@, journal.errors@),
        decreases files.len() - i,
    {
        if is_journal_file(files[i].name.as_str()) {
            let ghost k = journal.entries@.len() as int;
            let ghost m = journal.errors@.len() as int;
            journal.read(i, &files[i].lines);
            assert(Journal::gathers(files@, i as int, journal.entries@.take(k), journal.errors@.take(m)));
        }
        i += 1;
    }
    journal
}

/// Parse the journal files that `order` names, one after the other in the
/// order of `order`
///
/// With [`order_of_time`] for `order` the entries come in the order in which
/// they were written, as far as the names of the files tell. A place in
/// `order` that names no file is passed over, and so is a file that does not
/// go by the name of a journal file.
pub fn parse_journal_dir_in(files: &Vec<JournalFile>, order: &Vec<usize>) -> (r: Journal)
    ensures
        Journal::gathers_in(files@, order@, order@.len() as int, r.entries@, r.errors@),
{
    let mut journal = Journal::new();
    let mut i: usize = 0;
    while i < order.len()
        invariant
            i <= order.len(),
            Journal::gathers_in(files@, order@, i as int, journal.entries@, journal.errors@),
        decreases order.len() - i,
    {
        let at = order[i];
        if at < files.len() && is_journal_file(files[at].name.as_str()) {
            let ghost k = journal.entries@.len() as int;
            let ghost m = journal.errors@.len() as int;
            journal.read(at, &files[at].lines);
            assert(Journal::gathers_in(
                files@,
                order@,
                i as int,
                journal.entries@.take(k),
                journal.errors@.take(m),
            ));
        }
        i += 1;
    }
    journal
}

/// Parse a status file entry
///
/// A status file holds one JSON object: the entry, with the members of its
/// event beside the timestamp.
pub fn parse_status_file<E: Decode>(text: &str) -> (r: Result<Entry<E>, DecodeError>)
    ensures
        match r {
            Ok(entry) => crate::json::document(text@) matches Some(json) && Entry::<E>::verdict(
                json,
            ) is Accepted && entry.agrees(json),
            Err(e) => Verdict::text::<Entry<E>>(crate::json::document(text@)) == Verdict::Refused(
                e,
            ),
        },
{
    from_str::<Entry<E>>(text)
}

/// A line with a tag that the table of known tags does not list is decoded
/// all the same, provided it is an object with a timestamp and with flags of
/// the right kind: its verdict is the acceptance, and its event is
/// [`Event::Other`].
pub proof fn lemma_unknown_tag_decodes(json: Json, tag: String)
    requires
        json is Object,
        json.field("event"@) == Some(Json::String(tag)),
        forall|i: int|
            0 <= i < crate::entry::incremental::KIND_SPELLINGS@.len() ==> (
            #[trigger] crate::entry::incremental::KIND_SPELLINGS@[i]).0@ != tag@,
        Verdict::required::<Timestamp>(json, "timestamp"@) is Accepted,
        Verdict::flag(json, "horizons"@) is Accepted,
        Verdict::flag(json, "odyssey"@) is Accepted,
    ensures
        Entry::<Event>::verdict(json) is Accepted,
        forall|entry: Entry<Event>| entry.agrees(json) ==> entry.event is Other,
{
    crate::entry::incremental::lemma_unknown_tag_is_other(json, tag);
}

/// A line without the member `event`, or with one that is no string, is
/// refused with the error of a line of the wrong shape, whatever else it
/// holds: it is neither passed over nor taken for an unknown kind.
pub proof fn lemma_missing_tag_refused(json: Json)
    requires
        !(json.field("event"@) matches Some(Json::String(_))),
    ensures
        Entry::<Event>::verdict(json) == Verdict::Refused(DecodeError::Structure),
{
    crate::entry::incremental::lemma_missing_tag_is_refused(json);
}

/// The number of lines among the first `upto` that are not empty.
pub open spec fn filled(lines: Seq<String>, upto: int) -> int
    decreases upto,
{
    if upto <= 0 {
        0
    } else if lines[upto - 1]@.len() == 0 {
        filled(lines, upto - 1)
    } else {
        filled(lines, upto - 1) + 1
    }
}

/// No line is lost and none is counted twice: every line that is not empty
/// comes to one entry or to one error, so a line that is refused takes
/// nothing away from the lines around it. Every error names a line of the
/// file it was found in.
pub proof fn lemma_every_line_accounted(
    lines: Seq<String>,
    file: usize,
    upto: int,
    entries: Seq<Entry<Event>>,
    errors: Seq<LineError>,
)
    requires
        0 <= upto <= lines.len(),
        Journal::reads(lines, file, upto, entries, errors),
    ensures
        entries.len() + errors.len() == filled(lines, upto),
        forall|i: int|
            0 <= i < errors.len() ==> (#[trigger] errors[i]).file == file && 0 <= errors[i].line
                < upto,
    decreases upto,
{
    if upto > 0 {
        if lines[upto - 1]@.len() == 0 {
            lemma_every_line_accounted(lines, file, upto - 1, entries, errors);
        } else {
            match Verdict::text::<Entry<Event>>(crate::json::document(lines[upto - 1]@)) {
                Verdict::Accepted => {
                    lemma_every_line_accounted(lines, file, upto - 1, entries.drop_last(), errors);
                },
                Verdict::Refused(_) => {
                    lemma_every_line_accounted(lines, file, upto - 1, entries, errors.drop_last());
                    assert forall|i: int| 0 <= i < errors.len() implies (#[trigger] errors[i]).file
                        == file && 0 <= errors[i].line < upto by {
                        if i < errors.len() - 1 {
                            assert(errors[i] == errors.drop_last()[i]);
                        }
                    }
                },
            }
        }
    }
}

} // verus!
