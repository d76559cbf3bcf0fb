//! Event-log queries filtered by a chain of up to four topics, where each
//! topic after the first is joined to the one before it by an operator.
use vstd::prelude::*;

use crate::params::{pairs_view, push_int, push_text};
use crate::text::decimal;

verus! {

/// A block range, a page, and topics `topic0..topic3`, of which the later
/// three may be empty; `topic0_1_opr` joins `topic0` and `topic1` (`and` or
/// `or`), and so on.
pub struct TopicFilter {
    pub fromblock: i64,
    pub toblock: i64,
    pub topic0: String,
    pub topic1: String,
    pub topic2: String,
    pub topic3: String,
    pub topic0_1_opr: String,
    pub topic1_2_opr: String,
    pub topic2_3_opr: String,
    pub page: i64,
    pub offset: i64,
}

/// A later topic and the operator that joins it to the one before it, or
/// nothing where the topic is empty.
pub open spec fn linked_topic(
    key: Seq<char>,
    topic: Seq<char>,
    opr_key: Seq<char>,
    opr: Seq<char>,
) -> Seq<(Seq<char>, Seq<char>)> {
    if topic.len() == 0 {
        Seq::empty()
    } else {
        seq![(key, topic), (opr_key, opr)]
    }
}

impl TopicFilter {
    /// The topics present form a prefix of the chain: no topic is set after
    /// an empty one.
    pub open spec fn well_formed(&self) -> bool {
        &&& self.topic2@.len() > 0 ==> self.topic1@.len() > 0
        &&& self.topic3@.len() > 0 ==> self.topic2@.len() > 0
    }

    /// How many of `topic1..topic3` are present.
    pub open spec fn linked_count(&self) -> nat {
        (if self.topic1@.len() > 0 { 1nat } else { 0nat }) + (if self.topic2@.len() > 0 {
            1nat
        } else {
            0nat
        }) + (if self.topic3@.len() > 0 { 1nat } else { 0nat })
    }

    /// The encoded fields: block range and `topic0` always, each present later
    /// topic followed by its operator, then the page.
    pub open spec fn fields(&self) -> Seq<(Seq<char>, Seq<char>)> {
        seq![
            ("fromblock"@, decimal(self.fromblock as int)),
            ("toblock"@, decimal(self.toblock as int)),
            ("topic0"@, self.topic0@),
        ] + linked_topic("topic1"@, self.topic1@, "topic0_1_opr"@, self.topic0_1_opr@)
            + linked_topic("topic2"@, self.topic2@, "topic1_2_opr"@, self.topic1_2_opr@)
            + linked_topic("topic3"@, self.topic3@, "topic2_3_opr"@, self.topic2_3_opr@) + seq![
            ("page"@, decimal(self.page as int)),
            ("offset"@, decimal(self.offset as int)),
        ]
    }

    /// Appends the encoded fields to `out`.
    pub fn encode_into(&self, out: &mut Vec<(String, String)>)
        requires
            self.well_formed(),
        ensures
            pairs_view(final(out)@) == pairs_view(old(out)@) + self.fields(),
    {
        let ghost before = pairs_view(out@);
        push_int(out, "fromblock", self.fromblock);
        push_int(out, "toblock", self.toblock);
        push_text(out, "topic0", self.topic0.as_str());
        let ghost head = pairs_view(out@);
        if !self.topic1.as_str().is_empty() {
            push_text(out, "topic1", self.topic1.as_str());
            push_text(out, "topic0_1_opr", self.topic0_1_opr.as_str());
        }
        assert(pairs_view(out@) =~= head + linked_topic(
            "topic1"@,
            self.topic1@,
            "topic0_1_opr"@,
            self.topic0_1_opr@,
        ));
        let ghost one = pairs_view(out@);
        if !self.topic2.as_str().is_empty() {
            push_text(out, "topic2", self.topic2.as_str());
            push_text(out, "topic1_2_opr", self.topic1_2_opr.as_str());
        }
        assert(pairs_view(out@) =~= one + linked_topic(
            "topic2"@,
            self.topic2@,
            "topic1_2_opr"@,
            self.topic1_2_opr@,
        ));
        let ghost two = pairs_view(out@);
        if !self.topic3.as_str().is_empty() {
            push_text(out, "topic3", self.topic3.as_str());
            push_text(out, "topic2_3_opr", self.topic2_3_opr.as_str());
        }
        assert(pairs_view(out@) =~= two + linked_topic(
            "topic3"@,
            self.topic3@,
            "topic2_3_opr"@,
            self.topic2_3_opr@,
        ));
        push_int(out, "page", self.page);
        push_int(out, "offset", self.offset);
        assert(pairs_view(out@) =~= before + self.fields());
    }

    /// The encoded fields as key/value pairs.
    pub fn encode(&self) -> (r: Vec<(String, String)>)
        requires
            self.well_formed(),
        ensures
            pairs_view(r@) == self.fields(),
    {
        let mut out: Vec<(String, String)> = Vec::new();
        self.encode_into(&mut out);
        assert(pairs_view(Seq::empty()) + self.fields() =~= self.fields());
        out
    }
}

/// A well-formed topic chain with `n` of its later topics present encodes to
/// `5 + 2 * n` fields: 5 with `topic0` alone, 7 with two topics.
pub proof fn lemma_topic_field_count(q: TopicFilter)
    requires
        q.well_formed(),
    ensures
        q.fields().len() == 5 + 2 * q.linked_count(),
        q.topic1@.len() == 0 ==> q.fields().len() == 5,
        q.topic1@.len() > 0 && q.topic2@.len() == 0 ==> q.fields().len() == 7,
{
}

} // verus!
