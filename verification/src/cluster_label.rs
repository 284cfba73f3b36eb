use vstd::prelude::*;
use vstd::string::*;

verus! {

/// The number of `.` characters in `s`.
pub open spec fn dots(s: Seq<char>) -> nat
    decreases s.len(),
{
    if s.len() == 0 {
        0
    } else {
        dots(s.drop_last()) + if s.last() == '.' {
            1nat
        } else {
            0nat
        }
    }
}

/// The text `prefix.name` that a cluster label is written as.
pub open spec fn label_text(prefix: Seq<char>, name: Seq<char>) -> Seq<char> {
    prefix + seq!['.'] + name
}

/// The message that a text which is not of the form `prefix.name` is refused with.
pub open spec fn label_format_error() -> Seq<char> {
    "Should be in the format 'prefix.name'"@
}

/// Counting dots distributes over concatenation.
pub proof fn lemma_dots_concat(a: Seq<char>, b: Seq<char>)
    ensures
        dots(a + b) == dots(a) + dots(b),
    decreases b.len(),
{
    if b.len() == 0 {
        assert(a + b =~= a);
    } else {
        lemma_dots_concat(a, b.drop_last());
        assert((a + b).drop_last() =~= a + b.drop_last());
    }
}

/// A text holds no dot exactly when its dot count is zero.
pub proof fn lemma_dots_zero(s: Seq<char>)
    ensures
        dots(s) == 0 <==> !s.contains('.'),
    decreases s.len(),
{
    if s.len() > 0 {
        lemma_dots_zero(s.drop_last());
        if s.drop_last().contains('.') {
            let k = choose|k: int| 0 <= k < s.drop_last().len() && s.drop_last()[k] == '.';
            assert(s[k] == '.');
        }
        if s.contains('.') && s.last() != '.' {
            let k = choose|k: int| 0 <= k < s.len() && s[k] == '.';
            assert(s.drop_last()[k] == '.');
        }
    }
}

/// Extending a prefix of `s` by one character adds that character's dot.
proof fn lemma_dots_take_step(s: Seq<char>, i: int)
    requires
        0 <= i < s.len(),
    ensures
        dots(s.take(i + 1)) == dots(s.take(i)) + if s[i] == '.' {
            1nat
        } else {
            0nat
        },
{
    assert(s.take(i + 1).drop_last() =~= s.take(i));
}

/// Writing a label as `prefix.name` and parsing that text gives the label
/// back: where neither part holds a dot, the text holds exactly one dot (so
/// `ClusterLabel::from_str` accepts it), and the two parts are determined by
/// the text.
pub proof fn lemma_label_text_unique(p1: Seq<char>, n1: Seq<char>, p2: Seq<char>, n2: Seq<char>)
    requires
        !p1.contains('.'),
        !n1.contains('.'),
        !p2.contains('.'),
        !n2.contains('.'),
        label_text(p1, n1) == label_text(p2, n2),
    ensures
        dots(label_text(p1, n1)) == 1,
        p1 == p2,
        n1 == n2,
{
    lemma_dots_zero(p1);
    lemma_dots_zero(n1);
    lemma_dots_concat(p1 + seq!['.'], n1);
    lemma_dots_concat(p1, seq!['.']);
    reveal_with_fuel(dots, 2);
    assert(seq!['.'].drop_last() =~= Seq::<char>::empty());
    let t = label_text(p1, n1);
    if p1.len() < p2.len() {
        assert(t[p1.len() as int] == '.');
        assert(p2[p1.len() as int] == t[p1.len() as int]);
    } else if p2.len() < p1.len() {
        assert(t[p2.len() as int] == label_text(p2, n2)[p2.len() as int]);
        assert(p1[p2.len() as int] == '.');
    }
    assert(p1.len() == p2.len());
    assert(p1 =~= t.take(p1.len() as int));
    assert(p2 =~= label_text(p2, n2).take(p2.len() as int));
    assert(n1 =~= t.skip(p1.len() as int + 1));
    assert(n2 =~= label_text(p2, n2).skip(p2.len() as int + 1));
}

/// The prefix of a parsed label is the prefix that was written, wherever one
/// was written, and the default otherwise; its name is the name that was
/// written; and its filter joins the two with `.name=`. Here `l` is any label
/// that `ClusterLabel::from_str` may return for the text `p.n`.
pub proof fn law_parsed_label_parts(
    l: ClusterLabel,
    p: Seq<char>,
    n: Seq<char>,
    default_prefix: Seq<char>,
)
    requires
        l.wf(),
        !p.contains('.'),
        !n.contains('.'),
        label_text(l.prefix_text(), l.name_text()) == label_text(p, n),
    ensures
        p.len() > 0 ==> l.effective_prefix(default_prefix) == p,
        p.len() == 0 ==> l.effective_prefix(default_prefix) == default_prefix,
        l.name_text() == n,
        l.filter_text(default_prefix) == (if p.len() > 0 {
            p
        } else {
            default_prefix
        }) + ".name="@ + n,
{
    lemma_label_text_unique(l.prefix_text(), l.name_text(), p, n);
}

/// The filter of a label is its prefix (given or default), then `.name=`,
/// then its whole name; the prefix is the given one unless that is empty.
pub proof fn law_filter_joins_prefix_and_name(l: ClusterLabel, default_prefix: Seq<char>)
    ensures
        l.filter_text(default_prefix) == l.effective_prefix(default_prefix) + ".name="@
            + l.name_text(),
        l.prefix_text().len() > 0 ==> l.effective_prefix(default_prefix) == l.prefix_text(),
        l.prefix_text().len() == 0 ==> l.effective_prefix(default_prefix) == default_prefix,
{
}

/// Label for a cluster: `$prefix.name = $name`.
pub struct ClusterLabel {
    prefix: String,
    name: String,
}

impl ClusterLabel {
    /// The prefix as it was given, possibly empty.
    pub closed spec fn prefix_text(self) -> Seq<char> {
        self.prefix@
    }

    /// The name as it was given.
    pub closed spec fn name_text(self) -> Seq<char> {
        self.name@
    }

    /// Neither part of a label holds a dot, so that its text `prefix.name`
    /// parses back into it.
    pub open spec fn wf(self) -> bool {
        !self.prefix_text().contains('.') && !self.name_text().contains('.')
    }

    /// The prefix that a label stands for: the given one, or `default_prefix`
    /// where none was given.
    pub open spec fn effective_prefix(self, default_prefix: Seq<char>) -> Seq<char> {
        if self.prefix_text().len() == 0 {
            default_prefix
        } else {
            self.prefix_text()
        }
    }

    /// The label filter text of the network: `<prefix>.name=<name>`.
    pub open spec fn filter_text(self, default_prefix: Seq<char>) -> Seq<char> {
        self.effective_prefix(default_prefix) + ".name="@ + self.name_text()
    }

    /// Parses a label written as `prefix.name`: the text must hold exactly one
    /// dot, which splits it into the prefix and the name.
    pub fn from_str(s: &str) -> (r: Result<ClusterLabel, String>)
        ensures
            r is Ok <==> dots(s@) == 1,
            r matches Ok(l) ==> {
                &&& s@ == label_text(l.prefix_text(), l.name_text())
                &&& l.wf()
            },
            r matches Err(e) ==> e@ == label_format_error(),
    {
        let n = s.unicode_len();
        let mut count: usize = 0;
        let mut dot: usize = 0;
        let mut i: usize = 0;
        while i < n
            invariant
                n == s@.len(),
                i <= n,
                count <= i,
                count == dots(s@.take(i as int)),
                count >= 1 ==> dot < i && s@[dot as int] == '.' && dots(s@.take(dot as int)) == 0,
            decreases n - i,
        {
            proof {
                lemma_dots_take_step(s@, i as int);
            }
            if s.get_char(i) == '.' {
                if count == 0 {
                    dot = i;
                }
                count = count + 1;
            }
            i = i + 1;
        }
        assert(s@.take(n as int) =~= s@);
        if count == 1 {
            let prefix = String::from_str(s.substring_char(0, dot));
            let name = String::from_str(s.substring_char(dot + 1, n));
            proof {
                let p = s@.subrange(0, dot as int);
                let q = s@.subrange(dot + 1, n as int);
                assert(s@ =~= p + seq!['.'] + q);
                assert(p =~= s@.take(dot as int));
                lemma_dots_concat(p + seq!['.'], q);
                lemma_dots_concat(p, seq!['.']);
                reveal_with_fuel(dots, 2);
                assert(seq!['.'].drop_last() =~= Seq::<char>::empty());
                lemma_dots_zero(p);
                lemma_dots_zero(q);
            }
            Ok(ClusterLabel { prefix, name })
        } else {
            Err(String::from_str("Should be in the format 'prefix.name'"))
        }
    }

    /// The network prefix: the given prefix, or `default_prefix` where the
    /// label was written without one.
    pub fn prefix(&self, default_prefix: &str) -> (r: String)
        ensures
            r@ == self.effective_prefix(default_prefix@),
            self.prefix_text().len() > 0 ==> r@ == self.prefix_text(),
            self.prefix_text().len() == 0 ==> r@ == default_prefix@,
    {
        if self.prefix.as_str().is_empty() {
            String::from_str(default_prefix)
        } else {
            self.prefix.clone()
        }
    }

    /// The network name.
    pub fn name(&self) -> (r: String)
        ensures
            r@ == self.name_text(),
    {
        self.name.clone()
    }

    /// The label filter of the network: `<prefix>.name=<name>`.
    pub fn filter(&self, default_prefix: &str) -> (r: String)
        ensures
            r@ == self.filter_text(default_prefix@),
            r@ == self.effective_prefix(default_prefix@) + ".name="@ + self.name_text(),
    {
        let p = self.prefix(default_prefix);
        let n = self.name();
        let r = p.concat(".name=").concat(n.as_str());
        r
    }

    /// How a label is shown: `'<prefix>'.'<name>'`.
    pub fn display_text(&self, default_prefix: &str) -> (r: String)
        ensures
            r@ == "'"@ + self.effective_prefix(default_prefix@) + "'.'"@ + self.name_text() + "'"@,
    {
        let p = self.prefix(default_prefix);
        let n = self.name();
        String::from_str("'").concat(p.as_str()).concat("'.'").concat(n.as_str()).concat("'")
    }
}

impl Clone for ClusterLabel {
    fn clone(&self) -> (r: Self)
        ensures
            r == *self,
    {
        ClusterLabel { prefix: self.prefix.clone(), name: self.name.clone() }
    }
}

impl Default for ClusterLabel {
    fn default() -> (r: Self)
        ensures
            r.prefix_text() == Seq::<char>::empty(),
            r.name_text() == Seq::<char>::empty(),
            r.wf(),
    {
        ClusterLabel { prefix: String::new(), name: String::new() }
    }
}

} // verus!
