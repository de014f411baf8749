//! Quality-of-service levels and their arbitration.

use vstd::prelude::*;

verus! {

/// MQTT delivery guarantee, ordered by its number on the wire.
#[derive(Debug, Clone, Copy, PartialEq, Eq, Structural, Hash)]
pub enum QoS {
    AtMostOnce,
    AtLeastOnce,
    ExactlyOnce,
}

/// The number a level has on the wire.
pub open spec fn qos_value(q: QoS) -> int {
    match q {
        QoS::AtMostOnce => 0,
        QoS::AtLeastOnce => 1,
        QoS::ExactlyOnce => 2,
    }
}

/// The level of the smaller number; the second one where the numbers agree.
pub open spec fn qos_less(a: QoS, b: QoS) -> QoS {
    if qos_value(a) < qos_value(b) {
        a
    } else {
        b
    }
}

/// Numeric view and arbitration of a level.
pub trait QoSEx {
    fn value(&self) -> u8;

    fn less_value(&self, qos: QoS) -> QoS;
}

impl QoSEx for QoS {
    fn value(&self) -> (v: u8)
        ensures
            v as int == qos_value(*self),
    {
        match self {
            QoS::AtMostOnce => 0,
            QoS::AtLeastOnce => 1,
            QoS::ExactlyOnce => 2,
        }
    }

    fn less_value(&self, qos: QoS) -> (r: QoS)
        ensures
            r == qos_less(*self, qos),
    {
        if self.value() < qos.value() {
            *self
        } else {
            qos
        }
    }
}

impl QoS {
    /// The level with the given wire number, if there is one.
    pub fn from_value(v: u8) -> (r: Option<QoS>)
        ensures
            v > 2 ==> r is None,
            v <= 2 ==> r is Some && qos_value(r->0) == v as int,
    {
        if v == 0 {
            Some(QoS::AtMostOnce)
        } else if v == 1 {
            Some(QoS::AtLeastOnce)
        } else if v == 2 {
            Some(QoS::ExactlyOnce)
        } else {
            None
        }
    }
}

/// A level is determined by its number.
pub proof fn lemma_qos_value_injective(a: QoS, b: QoS)
    ensures
        qos_value(a) == qos_value(b) <==> a == b,
        0 <= qos_value(a) <= 2,
{
}

/// Arbitration does not depend on the order of its arguments and yields the
/// level whose number is the minimum of the two.
pub proof fn lemma_less_value_is_min(a: QoS, b: QoS)
    ensures
        qos_less(a, b) == qos_less(b, a),
        qos_value(qos_less(a, b)) == vstd::math::min(qos_value(a), qos_value(b)),
        qos_less(a, b) == a || qos_less(a, b) == b,
{
}

} // verus!
