use vstd::prelude::*;

use crate::text::{chars_of, opt_string_view, range_equals, string_of_range};

verus! {

/// How the machine is connected.
#[derive(Debug, Clone, Copy, PartialEq, Eq, Structural)]
pub enum ConnectionKind {
    Wifi,
    Ethernet,
    Disconnected,
}

/// The active network connection, as the bar shows it.
#[derive(Debug, Clone)]
pub struct NetworkState {
    pub connected: bool,
    pub ssid: Option<String>,
    pub connection: Option<String>,
    pub kind: ConnectionKind,
}

/// The mathematical value of a [`NetworkState`].
pub struct NetworkView {
    pub connected: bool,
    pub ssid: Option<Seq<char>>,
    pub connection: Option<Seq<char>>,
    pub kind: ConnectionKind,
}

impl View for NetworkState {
    type V = NetworkView;

    open spec fn view(&self) -> NetworkView {
        NetworkView {
            connected: self.connected,
            ssid: opt_string_view(self.ssid),
            connection: opt_string_view(self.connection),
            kind: self.kind,
        }
    }
}

/// The state reported when no usable connection is active.
pub open spec fn disconnected_view() -> NetworkView {
    NetworkView { connected: false, ssid: None, connection: None, kind: ConnectionKind::Disconnected }
}

/// The state reported for an active wireless connection named `name`.
pub open spec fn wifi_view(name: Seq<char>) -> NetworkView {
    NetworkView {
        connected: true,
        ssid: Some(name),
        connection: Some(name),
        kind: ConnectionKind::Wifi,
    }
}

/// The state reported for an active wired connection named `name`.
pub open spec fn ethernet_view(name: Seq<char>) -> NetworkView {
    NetworkView {
        connected: true,
        ssid: None,
        connection: Some(name),
        kind: ConnectionKind::Ethernet,
    }
}

/// A well-formed state: `connected` agrees with `kind`, an SSID only for a
/// wireless link, and a connection name exactly when connected.
pub open spec fn network_view_wf(v: NetworkView) -> bool {
    &&& v.connected <==> v.kind != ConnectionKind::Disconnected
    &&& v.ssid is Some <==> v.kind == ConnectionKind::Wifi
    &&& v.connection is Some <==> v.connected
    &&& v.ssid is Some ==> v.ssid == v.connection
}

/// The first index in `from..to` that holds `c`, or `to` when there is none.
pub open spec fn find_from(s: Seq<char>, c: char, from: int, to: int) -> int
    decreases to - from,
{
    if from >= to {
        to
    } else if s[from] == c {
        from
    } else {
        find_from(s, c, from + 1, to)
    }
}

/// Where the text of the line that runs from `start` to the line break at
/// `brk` ends: a `'\r'` just before a line break is not part of the line.
pub open spec fn line_text_end(s: Seq<char>, start: int, brk: int) -> int {
    if brk < s.len() && brk > start && s[brk - 1] == '\r' {
        brk - 1
    } else {
        brk
    }
}

/// What one line `s[a..b]` of `nmcli -t -f NAME,TYPE,DEVICE,STATE` output
/// means: `None` when it has fewer than four colon-separated fields (the
/// line is refused), `Some(None)` when it is skipped, and `Some(Some(v))` for
/// an activated wireless or wired connection. The fields are split at the
/// first three colons into NAME, TYPE, DEVICE and STATE; the NAME field
/// names the connection.
pub open spec fn nmcli_line(s: Seq<char>, a: int, b: int) -> Option<Option<NetworkView>> {
    let c1 = find_from(s, ':', a, b);
    let c2 = find_from(s, ':', c1 + 1, b);
    let c3 = find_from(s, ':', c2 + 1, b);
    if c1 >= b || c2 >= b || c3 >= b {
        None
    } else {
        let kind = s.subrange(c1 + 1, c2);
        let name = s.subrange(a, c1);
        let state = s.subrange(c3 + 1, b);
        if state != "activated"@ || kind == "loopback"@ {
            Some(None)
        } else if kind == "802-11-wireless"@ {
            Some(Some(wifi_view(name)))
        } else if kind == "802-3-ethernet"@ {
            Some(Some(ethernet_view(name)))
        } else {
            Some(None)
        }
    }
}

/// The outcome of reading `s` line by line from index `p`: `None` when a
/// refused line comes before any matching one, `Some(Some(v))` for the first
/// matching line, and `Some(None)` when no line matches. Lines end at `'\n'`;
/// text after the last line break forms a last line when it is not empty.
pub open spec fn nmcli_scan(s: Seq<char>, p: int) -> Option<Option<NetworkView>>
    decreases s.len() - p,
{
    if p < 0 || p >= s.len() {
        Some(None)
    } else {
        let brk = find_from(s, '\n', p, s.len() as int);
        match nmcli_line(s, p, line_text_end(s, p, brk)) {
            Some(None) => if brk < s.len() {
                nmcli_scan(s, brk + 1)
            } else {
                Some(None)
            },
            other => other,
        }
    }
}

/// The network state that the whole `nmcli` output `s` reports, when it is
/// not refused.
pub open spec fn nmcli_state(s: Seq<char>) -> NetworkView {
    match nmcli_scan(s, 0) {
        Some(Some(v)) => v,
        _ => disconnected_view(),
    }
}

proof fn lemma_find_from_bounds(s: Seq<char>, c: char, from: int, to: int)
    requires
        from <= to,
    ensures
        from <= find_from(s, c, from, to) <= to,
        find_from(s, c, from, to) < to ==> s[find_from(s, c, from, to)] == c,
    decreases to - from,
{
    if from < to && s[from] != c {
        lemma_find_from_bounds(s, c, from + 1, to);
    }
}

/// The first index in `from..to` of `v` that holds `c`, or `to`.
fn find_char(v: &Vec<char>, c: char, from: usize, to: usize) -> (r: usize)
    requires
        from <= to <= v.len(),
    ensures
        r == find_from(v@, c, from as int, to as int),
        from <= r <= to,
{
    let mut i = from;
    while i < to
        invariant
            from <= i <= to <= v.len(),
            find_from(v@, c, from as int, to as int) == find_from(v@, c, i as int, to as int),
        decreases to - i,
    {
        if v[i] == c {
            return i;
        }
        i = i + 1;
    }
    i
}

/// Reads one line `v[a..b]`; see [`nmcli_line`].
fn read_nmcli_line(v: &Vec<char>, a: usize, b: usize) -> (r: Option<Option<NetworkState>>)
    requires
        a <= b <= v.len(),
    ensures
        match r {
            None => nmcli_line(v@, a as int, b as int) is None,
            Some(None) => nmcli_line(v@, a as int, b as int) == Some(None::<NetworkView>),
            Some(Some(n)) => nmcli_line(v@, a as int, b as int) == Some(Some(n@)),
        },
{
    let c1 = find_char(v, ':', a, b);
    if c1 >= b {
        return None;
    }
    let c2 = find_char(v, ':', c1 + 1, b);
    if c2 >= b {
        return None;
    }
    let c3 = find_char(v, ':', c2 + 1, b);
    if c3 >= b {
        return None;
    }
    if !range_equals(v, c3 + 1, b, "activated") || range_equals(v, c1 + 1, c2, "loopback") {
        return Some(None);
    }
    if range_equals(v, c1 + 1, c2, "802-11-wireless") {
        let name = string_of_range(v, a, c1);
        let name2 = string_of_range(v, a, c1);
        return Some(
            Some(
                NetworkState {
                    connected: true,
                    ssid: Some(name),
                    connection: Some(name2),
                    kind: ConnectionKind::Wifi,
                },
            ),
        );
    }
    if range_equals(v, c1 + 1, c2, "802-3-ethernet") {
        let name = string_of_range(v, a, c1);
        return Some(
            Some(
                NetworkState {
                    connected: true,
                    ssid: None,
                    connection: Some(name),
                    kind: ConnectionKind::Ethernet,
                },
            ),
        );
    }
    Some(None)
}

/// Reads the whole `nmcli` output; `None` where it is refused.
fn scan_nmcli_output(out: &str) -> (r: Option<NetworkState>)
    ensures
        r is None <==> nmcli_scan(out@, 0) is None,
        r matches Some(n) ==> n@ == nmcli_state(out@),
{
    let v = chars_of(out);
    let len = v.len();
    let mut p: usize = 0;
    while p < len
        invariant
            len == v@.len(),
            v@ == out@,
            p <= len,
            nmcli_scan(v@, 0) == nmcli_scan(v@, p as int),
        decreases len - p,
    {
        let brk = find_char(&v, '\n', p, len);
        let end = if brk < len && brk > p && v[brk - 1] == '\r' {
            brk - 1
        } else {
            brk
        };
        assert(end == line_text_end(v@, p as int, brk as int));
        match read_nmcli_line(&v, p, end) {
            None => {
                return None;
            },
            Some(Some(n)) => {
                return Some(n);
            },
            Some(None) => {
                if brk < len {
                    p = brk + 1;
                } else {
                    return Some(
                        NetworkState {
                            connected: false,
                            ssid: None,
                            connection: None,
                            kind: ConnectionKind::Disconnected,
                        },
                    );
                }
            },
        }
    }
    Some(
        NetworkState {
            connected: false,
            ssid: None,
            connection: None,
            kind: ConnectionKind::Disconnected,
        },
    )
}

/// Whether `from_nmcli_output` accepts `out`: every line up to the first
/// activated wireless or wired connection has at least four fields.
pub fn nmcli_output_is_well_formed(out: &str) -> (r: bool)
    ensures
        r == nmcli_scan(out@, 0) is Some,
{
    scan_nmcli_output(out).is_some()
}

impl NetworkState {
    /// The state that the output of
    /// `nmcli -t -f NAME,TYPE,DEVICE,STATE connection show --active` reports:
    /// the first activated wireless (`802-11-wireless`) or wired
    /// (`802-3-ethernet`) connection, loopback and other kinds skipped, and
    /// disconnected when there is none.
    pub fn from_nmcli_output(out: &str) -> (r: NetworkState)
        requires
            nmcli_scan(out@, 0) is Some,
        ensures
            r@ == nmcli_state(out@),
            network_view_wf(r@),
    {
        proof {
            lemma_nmcli_state_wf(out@);
        }
        match scan_nmcli_output(out) {
            Some(n) => n,
            None => NetworkState {
                connected: false,
                ssid: None,
                connection: None,
                kind: ConnectionKind::Disconnected,
            },
        }
    }
}

/// The icon that stands for the connection in the bar.
#[derive(Debug, Clone, Copy, PartialEq, Eq, Structural)]
pub enum NetworkIcon {
    Wifi,
    Cable,
    Offline,
}

impl NetworkState {
    /// A wireless icon for a connected wireless link, a cable for any other
    /// connected link, and the offline badge when not connected.
    pub fn icon(&self) -> (r: NetworkIcon)
        ensures
            r == (if !self.connected {
                NetworkIcon::Offline
            } else if self.kind == ConnectionKind::Wifi {
                NetworkIcon::Wifi
            } else {
                NetworkIcon::Cable
            }),
    {
        if self.connected {
            if self.kind == ConnectionKind::Wifi {
                NetworkIcon::Wifi
            } else {
                NetworkIcon::Cable
            }
        } else {
            NetworkIcon::Offline
        }
    }

    /// The label next to the icon: "Connected" or "Disconnected".
    pub fn status_text(&self) -> (r: &'static str)
        ensures
            r@ == (if self.connected {
                "Connected"@
            } else {
                "Disconnected"@
            }),
    {
        if self.connected {
            "Connected"
        } else {
            "Disconnected"
        }
    }
}

/// `find_from` only looks at the characters of its window: two texts that
/// agree there give the same position in it.
proof fn lemma_find_window(s1: Seq<char>, o1: int, s2: Seq<char>, o2: int, c: char, a: int, b: int)
    requires
        0 <= a <= b,
        0 <= o1,
        0 <= o2,
        o1 + b <= s1.len(),
        o2 + b <= s2.len(),
        s1.subrange(o1 + a, o1 + b) == s2.subrange(o2 + a, o2 + b),
    ensures
        find_from(s1, c, o1 + a, o1 + b) - o1 == find_from(s2, c, o2 + a, o2 + b) - o2,
        a <= find_from(s1, c, o1 + a, o1 + b) - o1 <= b,
    decreases b - a,
{
    if a < b {
        assert(s1[o1 + a] == s1.subrange(o1 + a, o1 + b)[0]);
        assert(s2[o2 + a] == s2.subrange(o2 + a, o2 + b)[0]);
        assert(s1.subrange(o1 + a + 1, o1 + b) =~= s1.subrange(o1 + a, o1 + b).subrange(1, b - a));
        assert(s2.subrange(o2 + a + 1, o2 + b) =~= s2.subrange(o2 + a, o2 + b).subrange(1, b - a));
        lemma_find_window(s1, o1, s2, o2, c, a + 1, b);
    }
}

/// Windows that agree agree on every part of them.
proof fn lemma_sub_window(s1: Seq<char>, o1: int, s2: Seq<char>, o2: int, a: int, b: int, x: int, y: int)
    requires
        0 <= a <= x <= y <= b,
        0 <= o1,
        0 <= o2,
        o1 + b <= s1.len(),
        o2 + b <= s2.len(),
        s1.subrange(o1 + a, o1 + b) == s2.subrange(o2 + a, o2 + b),
    ensures
        s1.subrange(o1 + x, o1 + y) == s2.subrange(o2 + x, o2 + y),
{
    assert(s1.subrange(o1 + x, o1 + y) =~= s1.subrange(o1 + a, o1 + b).subrange(x - a, y - a));
    assert(s2.subrange(o2 + x, o2 + y) =~= s2.subrange(o2 + a, o2 + b).subrange(x - a, y - a));
}

/// How a line reads depends only on its own characters.
proof fn lemma_line_window(s1: Seq<char>, o1: int, s2: Seq<char>, o2: int, a: int, b: int)
    requires
        0 <= a <= b,
        0 <= o1,
        0 <= o2,
        o1 + b <= s1.len(),
        o2 + b <= s2.len(),
        s1.subrange(o1 + a, o1 + b) == s2.subrange(o2 + a, o2 + b),
    ensures
        nmcli_line(s1, o1 + a, o1 + b) == nmcli_line(s2, o2 + a, o2 + b),
{
    lemma_find_window(s1, o1, s2, o2, ':', a, b);
    let c1 = find_from(s1, ':', o1 + a, o1 + b) - o1;
    if c1 < b {
        lemma_sub_window(s1, o1, s2, o2, a, b, c1 + 1, b);
        lemma_find_window(s1, o1, s2, o2, ':', c1 + 1, b);
        let c2 = find_from(s1, ':', o1 + c1 + 1, o1 + b) - o1;
        if c2 < b {
            lemma_sub_window(s1, o1, s2, o2, a, b, c2 + 1, b);
            lemma_find_window(s1, o1, s2, o2, ':', c2 + 1, b);
            let c3 = find_from(s1, ':', o1 + c2 + 1, o1 + b) - o1;
            if c3 < b {
                lemma_sub_window(s1, o1, s2, o2, a, b, c1 + 1, c2);
                lemma_sub_window(s1, o1, s2, o2, a, b, a, c1);
                lemma_sub_window(s1, o1, s2, o2, a, b, c3 + 1, b);
            }
        }
    }
}

/// Reading `pre + rest` from inside `rest` is reading `rest` alone.
proof fn lemma_scan_shift(pre: Seq<char>, rest: Seq<char>, p: int)
    requires
        0 <= p,
    ensures
        nmcli_scan(pre + rest, pre.len() + p) == nmcli_scan(rest, p),
    decreases rest.len() - p,
{
    let s = pre + rest;
    let k = pre.len() as int;
    if p < rest.len() {
        assert(s.subrange(k + p, k + rest.len()) =~= rest.subrange(0int + p, 0int + rest.len()));
        lemma_find_window(s, k, rest, 0, '\n', p, rest.len() as int);
        let brk = find_from(rest, '\n', p, rest.len() as int);
        assert(find_from(s, '\n', k + p, s.len() as int) == k + brk) by {
            assert(k + rest.len() == s.len());
            assert(0 + p == p);
        }
        assert(line_text_end(s, k + p, k + brk) == k + line_text_end(rest, p, brk)) by {
            if brk < rest.len() && brk > p {
                assert(s[k + brk - 1] == rest[brk - 1]);
            }
        }
        let e = line_text_end(rest, p, brk);
        lemma_sub_window(s, k, rest, 0, p, rest.len() as int, p, e);
        lemma_line_window(s, k, rest, 0, p, e);
        if brk < rest.len() {
            lemma_scan_shift(pre, rest, brk + 1);
        }
    }
}

/// A line that is skipped (activated or not, loopback or any kind other
/// than wireless and wired, but with four fields) changes nothing: what the
/// output reports after it is what the output reports, however long the
/// skipped lines before the connection are; a line that matches or is
/// refused decides the output.
pub proof fn lemma_first_line_decides_or_is_skipped(line: Seq<char>, rest: Seq<char>)
    requires
        !line.contains('\n'),
    ensures
        nmcli_scan(line + seq!['\n'] + rest, 0) == match nmcli_scan(line + seq!['\n'], 0) {
            Some(None) => nmcli_scan(rest, 0),
            other => other,
        },
{
    let pre = line + seq!['\n'];
    let s = pre + rest;
    assert(line + seq!['\n'] + rest == s);
    let n = line.len() as int;
    assert(s.subrange(0int, n + 1) =~= pre.subrange(0int, n + 1));
    assert(find_from(pre, '\n', 0, n + 1) == n) by {
        lemma_find_no_match(pre, '\n', 0, n);
    }
    lemma_find_no_match(pre, '\n', 0, n);
    let e = line_text_end(pre, 0, n);
    assert(line_text_end(s, 0, n) == e) by {
        if n > 0 {
            assert(s[n - 1] == pre[n - 1]);
        }
    }
    lemma_sub_window(s, 0, pre, 0, 0, n + 1, 0, e);
    lemma_line_window(s, 0, pre, 0, 0, e);
    assert(find_from(s, '\n', 0, s.len() as int) == n) by {
        lemma_find_no_match(s, '\n', 0, n);
        assert(s[n] == '\n');
        lemma_find_stop(s, '\n', n, s.len() as int);
    }
    assert(find_from(pre, '\n', 0, pre.len() as int) == n) by {
        lemma_find_stop(pre, '\n', n, pre.len() as int);
    }
    lemma_scan_shift(pre, rest, 0);
    assert(nmcli_scan(pre, n + 1) == Some(None::<NetworkView>));
}

proof fn lemma_find_first(s: Seq<char>, c: char, a: int, k: int, b: int)
    requires
        0 <= a <= k <= b <= s.len(),
        forall|i: int| a <= i < k ==> s[i] != c,
        k < b ==> s[k] == c,
    ensures
        find_from(s, c, a, b) == k,
    decreases k - a,
{
    if a < k {
        lemma_find_first(s, c, a + 1, k, b);
    }
}

/// One line `NAME:TYPE:DEVICE:STATE` (NAME, TYPE and DEVICE without colons,
/// no line break anywhere) reads as: a wireless connection named NAME when
/// STATE is `activated` and TYPE is `802-11-wireless`, a wired one when
/// TYPE is `802-3-ethernet`, and otherwise nothing (the line is skipped).
pub proof fn lemma_single_line_reads(name: Seq<char>, kind: Seq<char>, dev: Seq<char>, state: Seq<char>)
    requires
        !name.contains(':'),
        !name.contains('\n'),
        !kind.contains(':'),
        !kind.contains('\n'),
        !dev.contains(':'),
        !dev.contains('\n'),
        !state.contains('\n'),
    ensures
        nmcli_scan(name + seq![':'] + kind + seq![':'] + dev + seq![':'] + state, 0) == if state
            == "activated"@ && kind == "802-11-wireless"@ {
            Some(Some(wifi_view(name)))
        } else if state == "activated"@ && kind == "802-3-ethernet"@ {
            Some(Some(ethernet_view(name)))
        } else {
            Some(None)
        },
{
    let s = name + seq![':'] + kind + seq![':'] + dev + seq![':'] + state;
    let c1 = name.len() as int;
    let c2 = c1 + 1 + kind.len();
    let c3 = c2 + 1 + dev.len();
    let len = s.len() as int;
    assert(len == c3 + 1 + state.len());
    assert forall|i: int| 0 <= i < len implies s[i] != '\n' by {
        if i < c1 {
            assert(s[i] == name[i]);
            assert(!name.contains('\n'));
        } else if i == c1 {
        } else if i < c2 {
            assert(s[i] == kind[i - c1 - 1]);
        } else if i == c2 {
        } else if i < c3 {
            assert(s[i] == dev[i - c2 - 1]);
        } else if i == c3 {
        } else {
            assert(s[i] == state[i - c3 - 1]);
        }
    }
    lemma_find_first(s, '\n', 0, len, len);
    assert(line_text_end(s, 0, len) == len);
    assert forall|i: int| 0 <= i < c1 implies s[i] != ':' by {
        assert(s[i] == name[i]);
    }
    lemma_find_first(s, ':', 0, c1, len);
    assert forall|i: int| c1 + 1 <= i < c2 implies s[i] != ':' by {
        assert(s[i] == kind[i - c1 - 1]);
    }
    lemma_find_first(s, ':', c1 + 1, c2, len);
    assert forall|i: int| c2 + 1 <= i < c3 implies s[i] != ':' by {
        assert(s[i] == dev[i - c2 - 1]);
    }
    lemma_find_first(s, ':', c2 + 1, c3, len);
    assert(s.subrange(0, c1) =~= name);
    assert(s.subrange(c1 + 1, c2) =~= kind);
    assert(s.subrange(c3 + 1, len) =~= state);
    reveal_strlit("802-11-wireless");
    reveal_strlit("802-3-ethernet");
    reveal_strlit("loopback");
    assert("loopback"@ != "802-11-wireless"@) by {
        assert("loopback"@[0] != "802-11-wireless"@[0]);
    }
    assert("loopback"@ != "802-3-ethernet"@) by {
        assert("loopback"@[0] != "802-3-ethernet"@[0]);
    }
}

proof fn lemma_find_no_match(s: Seq<char>, c: char, from: int, upto: int)
    requires
        0 <= from <= upto < s.len(),
        forall|i: int| from <= i < upto ==> s[i] != c,
    ensures
        forall|to: int| upto < to <= s.len() ==> find_from(s, c, from, to) == find_from(s, c, upto, to),
        find_from(s, c, from, upto) == upto,
    decreases upto - from,
{
    if from < upto {
        lemma_find_no_match(s, c, from + 1, upto);
    }
}

proof fn lemma_find_stop(s: Seq<char>, c: char, at: int, to: int)
    requires
        0 <= at < to <= s.len(),
        s[at] == c,
    ensures
        find_from(s, c, at, to) == at,
{
}

proof fn lemma_nmcli_scan_wf(s: Seq<char>, p: int)
    ensures
        nmcli_scan(s, p) matches Some(Some(v)) ==> network_view_wf(v),
    decreases s.len() - p,
{
    if 0 <= p < s.len() {
        let brk = find_from(s, '\n', p, s.len() as int);
        lemma_find_from_bounds(s, '\n', p, s.len() as int);
        if brk < s.len() {
            lemma_nmcli_scan_wf(s, brk + 1);
        }
    }
}

/// Whatever `nmcli` reports, the state read from it is well formed.
pub proof fn lemma_nmcli_state_wf(s: Seq<char>)
    ensures
        network_view_wf(nmcli_state(s)),
{
    lemma_nmcli_scan_wf(s, 0);
}

} // verus!
