//! The model of a device, recognised from the model number of its identify
//! record.

use vstd::prelude::*;
use crate::error::{Error, ErrorView};
use crate::text::{latin1, string_of, to_chars};

verus! {

/// The model of the NVMe device.
#[derive(Debug, Clone, Copy, PartialEq, Eq, Structural)]
pub enum Model {
    /// Elastic Block Store volume.
    AmazonElasticBlockStore,
    /// Instance store volume.
    AmazonInstanceStore,
}

/// The model string of an EBS volume.
pub open spec fn ebs_model_name() -> Seq<char> {
    "Amazon Elastic Block Store"@
}

/// The model string of an instance store volume.
pub open spec fn instance_store_model_name() -> Seq<char> {
    "Amazon EC2 NVMe Instance Storage"@
}

/// The white space that may pad a model number: the characters below
/// U+0100 that Unicode classes as white space.
pub open spec fn is_padding(c: char) -> bool {
    c == ' ' || c == '\t' || c == '\n' || c == '\u{b}' || c == '\u{c}' || c == '\r' || c
        == '\u{85}' || c == '\u{a0}'
}

/// `n` is where the padding at the end of `s` starts: from `n` on all is
/// padding, and what stands before `n` is not.
pub open spec fn is_padding_start(s: Seq<char>, n: int) -> bool {
    &&& 0 <= n <= s.len()
    &&& forall|i: int| n <= i < s.len() ==> is_padding(#[trigger] s[i])
    &&& n > 0 ==> !is_padding(s[n - 1])
}

/// `s` without the padding at its end.
pub open spec fn trim_end(s: Seq<char>) -> Seq<char> {
    s.take(choose|n: int| is_padding_start(s, n))
}

/// The model that the model number `mn` names, or the error that holds the
/// model string where it is neither of the two known ones.
pub open spec fn model_of(mn: Seq<u8>) -> Result<Model, ErrorView> {
    let name = trim_end(latin1(mn));
    if name == ebs_model_name() {
        Ok(Model::AmazonElasticBlockStore)
    } else if name == instance_store_model_name() {
        Ok(Model::AmazonInstanceStore)
    } else {
        Err(ErrorView::UnrecognizedModel(name))
    }
}

/// The view of what [`Model::from_model_number`] returns.
pub open spec fn model_result_view(r: Result<Model, Error>) -> Result<Model, ErrorView> {
    match r {
        Ok(model) => Ok(model),
        Err(e) => Err(e@),
    }
}

/// The padding at the end of a text starts at one place only.
pub proof fn lemma_padding_start_unique(s: Seq<char>, n: int)
    requires
        is_padding_start(s, n),
    ensures
        trim_end(s) == s.take(n),
{
    let m = choose|m: int| is_padding_start(s, m);
    if m < n {
        assert(is_padding(s[n - 1]));
    } else if n < m {
        assert(is_padding(s[m - 1]));
    }
}

/// A model number that is a known model string followed by any number of
/// spaces, none included, names that model.
pub proof fn lemma_padded_model_recognized(mn: Seq<u8>, k: int)
    requires
        0 <= k <= mn.len(),
        latin1(mn.take(k)) == ebs_model_name() || latin1(mn.take(k))
            == instance_store_model_name(),
        forall|i: int| k <= i < mn.len() ==> mn[i] == 0x20,
    ensures
        latin1(mn.take(k)) == ebs_model_name() ==> model_of(mn) == Ok::<Model, ErrorView>(
            Model::AmazonElasticBlockStore,
        ),
        latin1(mn.take(k)) == instance_store_model_name() ==> model_of(mn) == Ok::<
            Model,
            ErrorView,
        >(Model::AmazonInstanceStore),
{
    reveal_strlit("Amazon Elastic Block Store");
    reveal_strlit("Amazon EC2 NVMe Instance Storage");
    let s = latin1(mn);
    let name = latin1(mn.take(k));
    assert(s.take(k) =~= name);
    assert(name.len() == k);
    assert(k > 0);
    assert(s[k - 1] == name[k - 1]);
    if name == ebs_model_name() {
        assert(name[25] == 'e');
    } else {
        assert(name[31] == 'e');
        assert(name[0] == 'A');
        assert(ebs_model_name().len() != instance_store_model_name().len());
    }
    assert forall|i: int| k <= i < s.len() implies is_padding(#[trigger] s[i]) by {
        assert(mn[i] == 0x20);
    }
    lemma_padding_start_unique(s, k);
}

/// Recognising the model is a function of the model number: two results for
/// the same bytes, each as [`Model::from_model_number`] promises it, stand
/// for the same value.
pub proof fn lemma_model_deterministic(
    mn: Seq<u8>,
    first: Result<Model, Error>,
    second: Result<Model, Error>,
)
    requires
        model_result_view(first) == model_of(mn),
        model_result_view(second) == model_of(mn),
    ensures
        model_result_view(first) == model_result_view(second),
{
}

/// Whether `c` is padding.
fn is_padding_char(c: char) -> (r: bool)
    ensures
        r == is_padding(c),
{
    c == ' ' || c == '\t' || c == '\n' || c == '\u{b}' || c == '\u{c}' || c == '\r' || c
        == '\u{85}' || c == '\u{a0}'
}

/// The place where the padding at the end of `chars` starts.
fn find_padding_start(chars: &[char]) -> (n: usize)
    ensures
        is_padding_start(chars@, n as int),
{
    let mut n: usize = chars.len();
    while n > 0 && is_padding_char(chars[n - 1])
        invariant
            n <= chars.len(),
            forall|i: int| n <= i < chars.len() ==> is_padding(#[trigger] chars@[i]),
        decreases n,
    {
        n -= 1;
    }
    n
}

impl Model {
    /// Recognises the model from the model number of the identify record.
    /// The padding at the end is dropped and the rest must be one of the two
    /// known model strings, letter for letter; else the error carries the
    /// string that was found.
    pub fn from_model_number(mn: &[u8]) -> (r: Result<Model, Error>)
        ensures
            model_result_view(r) == model_of(mn@),
    {
        let chars = to_chars(mn);
        let n = find_padding_start(chars.as_slice());
        proof {
            lemma_padding_start_unique(chars@, n as int);
        }
        let name = string_of(chars.as_slice(), 0, n);
        assert(name@ =~= chars@.take(n as int));
        if name == "Amazon Elastic Block Store".to_owned() {
            Ok(Model::AmazonElasticBlockStore)
        } else if name == "Amazon EC2 NVMe Instance Storage".to_owned() {
            Ok(Model::AmazonInstanceStore)
        } else {
            Err(Error::UnrecognizedModel(name))
        }
    }
}

} // verus!
