use crate::app::gen::variations::variation::Variation;
use vstd::prelude::*;

verus! {

/// The variations that may be read with the all-objects qualifier
#[derive(Copy, Clone, Debug, PartialEq, Eq, Structural)]
pub enum AllObjectsVariation {
    Group1Var0,
    Group1Var1,
    Group1Var2,
    Group2Var0,
    Group2Var1,
    Group2Var2,
    Group2Var3,
    Group3Var0,
    Group3Var1,
    Group3Var2,
    Group4Var0,
    Group4Var1,
    Group4Var2,
    Group4Var3,
    Group10Var0,
    Group10Var1,
    Group10Var2,
    Group11Var0,
    Group11Var1,
    Group11Var2,
    Group13Var1,
    Group13Var2,
    Group20Var0,
    Group20Var1,
    Group20Var2,
    Group20Var5,
    Group20Var6,
    Group21Var0,
    Group21Var1,
    Group21Var2,
    Group21Var5,
    Group21Var6,
    Group21Var9,
    Group21Var10,
    Group22Var0,
    Group22Var1,
    Group22Var2,
    Group22Var5,
    Group22Var6,
    Group23Var0,
    Group23Var1,
    Group23Var2,
    Group23Var5,
    Group23Var6,
    Group30Var0,
    Group30Var1,
    Group30Var2,
    Group30Var3,
    Group30Var4,
    Group30Var5,
    Group30Var6,
    Group32Var0,
    Group32Var1,
    Group32Var2,
    Group32Var3,
    Group32Var4,
    Group32Var5,
    Group32Var6,
    Group32Var7,
    Group32Var8,
    Group40Var0,
    Group40Var1,
    Group40Var2,
    Group40Var3,
    Group40Var4,
    Group42Var0,
    Group42Var1,
    Group42Var2,
    Group42Var3,
    Group42Var4,
    Group42Var5,
    Group42Var6,
    Group42Var7,
    Group42Var8,
    Group43Var1,
    Group43Var2,
    Group43Var3,
    Group43Var4,
    Group43Var5,
    Group43Var6,
    Group43Var7,
    Group43Var8,
    Group60Var1,
    Group60Var2,
    Group60Var3,
    Group60Var4,
    Group110Var0,
    Group111Var0,
}

impl AllObjectsVariation {
    pub open spec fn to_variation(self) -> Variation {
        match self {
            AllObjectsVariation::Group1Var0 => Variation::Group1Var0,
            AllObjectsVariation::Group1Var1 => Variation::Group1Var1,
            AllObjectsVariation::Group1Var2 => Variation::Group1Var2,
            AllObjectsVariation::Group2Var0 => Variation::Group2Var0,
            AllObjectsVariation::Group2Var1 => Variation::Group2Var1,
            AllObjectsVariation::Group2Var2 => Variation::Group2Var2,
            AllObjectsVariation::Group2Var3 => Variation::Group2Var3,
            AllObjectsVariation::Group3Var0 => Variation::Group3Var0,
            AllObjectsVariation::Group3Var1 => Variation::Group3Var1,
            AllObjectsVariation::Group3Var2 => Variation::Group3Var2,
            AllObjectsVariation::Group4Var0 => Variation::Group4Var0,
            AllObjectsVariation::Group4Var1 => Variation::Group4Var1,
            AllObjectsVariation::Group4Var2 => Variation::Group4Var2,
            AllObjectsVariation::Group4Var3 => Variation::Group4Var3,
            AllObjectsVariation::Group10Var0 => Variation::Group10Var0,
            AllObjectsVariation::Group10Var1 => Variation::Group10Var1,
            AllObjectsVariation::Group10Var2 => Variation::Group10Var2,
            AllObjectsVariation::Group11Var0 => Variation::Group11Var0,
            AllObjectsVariation::Group11Var1 => Variation::Group11Var1,
            AllObjectsVariation::Group11Var2 => Variation::Group11Var2,
            AllObjectsVariation::Group13Var1 => Variation::Group13Var1,
            AllObjectsVariation::Group13Var2 => Variation::Group13Var2,
            AllObjectsVariation::Group20Var0 => Variation::Group20Var0,
            AllObjectsVariation::Group20Var1 => Variation::Group20Var1,
            AllObjectsVariation::Group20Var2 => Variation::Group20Var2,
            AllObjectsVariation::Group20Var5 => Variation::Group20Var5,
            AllObjectsVariation::Group20Var6 => Variation::Group20Var6,
            AllObjectsVariation::Group21Var0 => Variation::Group21Var0,
            AllObjectsVariation::Group21Var1 => Variation::Group21Var1,
            AllObjectsVariation::Group21Var2 => Variation::Group21Var2,
            AllObjectsVariation::Group21Var5 => Variation::Group21Var5,
            AllObjectsVariation::Group21Var6 => Variation::Group21Var6,
            AllObjectsVariation::Group21Var9 => Variation::Group21Var9,
            AllObjectsVariation::Group21Var10 => Variation::Group21Var10,
            AllObjectsVariation::Group22Var0 => Variation::Group22Var0,
            AllObjectsVariation::Group22Var1 => Variation::Group22Var1,
            AllObjectsVariation::Group22Var2 => Variation::Group22Var2,
            AllObjectsVariation::Group22Var5 => Variation::Group22Var5,
            AllObjectsVariation::Group22Var6 => Variation::Group22Var6,
            AllObjectsVariation::Group23Var0 => Variation::Group23Var0,
            AllObjectsVariation::Group23Var1 => Variation::Group23Var1,
            AllObjectsVariation::Group23Var2 => Variation::Group23Var2,
            AllObjectsVariation::Group23Var5 => Variation::Group23Var5,
            AllObjectsVariation::Group23Var6 => Variation::Group23Var6,
            AllObjectsVariation::Group30Var0 => Variation::Group30Var0,
            AllObjectsVariation::Group30Var1 => Variation::Group30Var1,
            AllObjectsVariation::Group30Var2 => Variation::Group30Var2,
            AllObjectsVariation::Group30Var3 => Variation::Group30Var3,
            AllObjectsVariation::Group30Var4 => Variation::Group30Var4,
            AllObjectsVariation::Group30Var5 => Variation::Group30Var5,
            AllObjectsVariation::Group30Var6 => Variation::Group30Var6,
            AllObjectsVariation::Group32Var0 => Variation::Group32Var0,
            AllObjectsVariation::Group32Var1 => Variation::Group32Var1,
            AllObjectsVariation::Group32Var2 => Variation::Group32Var2,
            AllObjectsVariation::Group32Var3 => Variation::Group32Var3,
            AllObjectsVariation::Group32Var4 => Variation::Group32Var4,
            AllObjectsVariation::Group32Var5 => Variation::Group32Var5,
            AllObjectsVariation::Group32Var6 => Variation::Group32Var6,
            AllObjectsVariation::Group32Var7 => Variation::Group32Var7,
            AllObjectsVariation::Group32Var8 => Variation::Group32Var8,
            AllObjectsVariation::Group40Var0 => Variation::Group40Var0,
            AllObjectsVariation::Group40Var1 => Variation::Group40Var1,
            AllObjectsVariation::Group40Var2 => Variation::Group40Var2,
            AllObjectsVariation::Group40Var3 => Variation::Group40Var3,
            AllObjectsVariation::Group40Var4 => Variation::Group40Var4,
            AllObjectsVariation::Group42Var0 => Variation::Group42Var0,
            AllObjectsVariation::Group42Var1 => Variation::Group42Var1,
            AllObjectsVariation::Group42Var2 => Variation::Group42Var2,
            AllObjectsVariation::Group42Var3 => Variation::Group42Var3,
            AllObjectsVariation::Group42Var4 => Variation::Group42Var4,
            AllObjectsVariation::Group42Var5 => Variation::Group42Var5,
            AllObjectsVariation::Group42Var6 => Variation::Group42Var6,
            AllObjectsVariation::Group42Var7 => Variation::Group42Var7,
            AllObjectsVariation::Group42Var8 => Variation::Group42Var8,
            AllObjectsVariation::Group43Var1 => Variation::Group43Var1,
            AllObjectsVariation::Group43Var2 => Variation::Group43Var2,
            AllObjectsVariation::Group43Var3 => Variation::Group43Var3,
            AllObjectsVariation::Group43Var4 => Variation::Group43Var4,
            AllObjectsVariation::Group43Var5 => Variation::Group43Var5,
            AllObjectsVariation::Group43Var6 => Variation::Group43Var6,
            AllObjectsVariation::Group43Var7 => Variation::Group43Var7,
            AllObjectsVariation::Group43Var8 => Variation::Group43Var8,
            AllObjectsVariation::Group60Var1 => Variation::Group60Var1,
            AllObjectsVariation::Group60Var2 => Variation::Group60Var2,
            AllObjectsVariation::Group60Var3 => Variation::Group60Var3,
            AllObjectsVariation::Group60Var4 => Variation::Group60Var4,
            AllObjectsVariation::Group110Var0 => Variation::Group110(0),
            AllObjectsVariation::Group111Var0 => Variation::Group111(0),
        }
    }

    /// the all-objects form of `v`, if it has one
    pub open spec fn spec_get(v: Variation) -> Option<AllObjectsVariation> {
        match v {
            Variation::Group1Var0 => Some(AllObjectsVariation::Group1Var0),
            Variation::Group1Var1 => Some(AllObjectsVariation::Group1Var1),
            Variation::Group1Var2 => Some(AllObjectsVariation::Group1Var2),
            Variation::Group2Var0 => Some(AllObjectsVariation::Group2Var0),
            Variation::Group2Var1 => Some(AllObjectsVariation::Group2Var1),
            Variation::Group2Var2 => Some(AllObjectsVariation::Group2Var2),
            Variation::Group2Var3 => Some(AllObjectsVariation::Group2Var3),
            Variation::Group3Var0 => Some(AllObjectsVariation::Group3Var0),
            Variation::Group3Var1 => Some(AllObjectsVariation::Group3Var1),
            Variation::Group3Var2 => Some(AllObjectsVariation::Group3Var2),
            Variation::Group4Var0 => Some(AllObjectsVariation::Group4Var0),
            Variation::Group4Var1 => Some(AllObjectsVariation::Group4Var1),
            Variation::Group4Var2 => Some(AllObjectsVariation::Group4Var2),
            Variation::Group4Var3 => Some(AllObjectsVariation::Group4Var3),
            Variation::Group10Var0 => Some(AllObjectsVariation::Group10Var0),
            Variation::Group10Var1 => Some(AllObjectsVariation::Group10Var1),
            Variation::Group10Var2 => Some(AllObjectsVariation::Group10Var2),
            Variation::Group11Var0 => Some(AllObjectsVariation::Group11Var0),
            Variation::Group11Var1 => Some(AllObjectsVariation::Group11Var1),
            Variation::Group11Var2 => Some(AllObjectsVariation::Group11Var2),
            Variation::Group13Var1 => Some(AllObjectsVariation::Group13Var1),
            Variation::Group13Var2 => Some(AllObjectsVariation::Group13Var2),
            Variation::Group20Var0 => Some(AllObjectsVariation::Group20Var0),
            Variation::Group20Var1 => Some(AllObjectsVariation::Group20Var1),
            Variation::Group20Var2 => Some(AllObjectsVariation::Group20Var2),
            Variation::Group20Var5 => Some(AllObjectsVariation::Group20Var5),
            Variation::Group20Var6 => Some(AllObjectsVariation::Group20Var6),
            Variation::Group21Var0 => Some(AllObjectsVariation::Group21Var0),
            Variation::Group21Var1 => Some(AllObjectsVariation::Group21Var1),
            Variation::Group21Var2 => Some(AllObjectsVariation::Group21Var2),
            Variation::Group21Var5 => Some(AllObjectsVariation::Group21Var5),
            Variation::Group21Var6 => Some(AllObjectsVariation::Group21Var6),
            Variation::Group21Var9 => Some(AllObjectsVariation::Group21Var9),
            Variation::Group21Var10 => Some(AllObjectsVariation::Group21Var10),
            Variation::Group22Var0 => Some(AllObjectsVariation::Group22Var0),
            Variation::Group22Var1 => Some(AllObjectsVariation::Group22Var1),
            Variation::Group22Var2 => Some(AllObjectsVariation::Group22Var2),
            Variation::Group22Var5 => Some(AllObjectsVariation::Group22Var5),
            Variation::Group22Var6 => Some(AllObjectsVariation::Group22Var6),
            Variation::Group23Var0 => Some(AllObjectsVariation::Group23Var0),
            Variation::Group23Var1 => Some(AllObjectsVariation::Group23Var1),
            Variation::Group23Var2 => Some(AllObjectsVariation::Group23Var2),
            Variation::Group23Var5 => Some(AllObjectsVariation::Group23Var5),
            Variation::Group23Var6 => Some(AllObjectsVariation::Group23Var6),
            Variation::Group30Var0 => Some(AllObjectsVariation::Group30Var0),
            Variation::Group30Var1 => Some(AllObjectsVariation::Group30Var1),
            Variation::Group30Var2 => Some(AllObjectsVariation::Group30Var2),
            Variation::Group30Var3 => Some(AllObjectsVariation::Group30Var3),
            Variation::Group30Var4 => Some(AllObjectsVariation::Group30Var4),
            Variation::Group30Var5 => Some(AllObjectsVariation::Group30Var5),
            Variation::Group30Var6 => Some(AllObjectsVariation::Group30Var6),
            Variation::Group32Var0 => Some(AllObjectsVariation::Group32Var0),
            Variation::Group32Var1 => Some(AllObjectsVariation::Group32Var1),
            Variation::Group32Var2 => Some(AllObjectsVariation::Group32Var2),
            Variation::Group32Var3 => Some(AllObjectsVariation::Group32Var3),
            Variation::Group32Var4 => Some(AllObjectsVariation::Group32Var4),
            Variation::Group32Var5 => Some(AllObjectsVariation::Group32Var5),
            Variation::Group32Var6 => Some(AllObjectsVariation::Group32Var6),
            Variation::Group32Var7 => Some(AllObjectsVariation::Group32Var7),
            Variation::Group32Var8 => Some(AllObjectsVariation::Group32Var8),
            Variation::Group40Var0 => Some(AllObjectsVariation::Group40Var0),
            Variation::Group40Var1 => Some(AllObjectsVariation::Group40Var1),
            Variation::Group40Var2 => Some(AllObjectsVariation::Group40Var2),
            Variation::Group40Var3 => Some(AllObjectsVariation::Group40Var3),
            Variation::Group40Var4 => Some(AllObjectsVariation::Group40Var4),
            Variation::Group42Var0 => Some(AllObjectsVariation::Group42Var0),
            Variation::Group42Var1 => Some(AllObjectsVariation::Group42Var1),
            Variation::Group42Var2 => Some(AllObjectsVariation::Group42Var2),
            Variation::Group42Var3 => Some(AllObjectsVariation::Group42Var3),
            Variation::Group42Var4 => Some(AllObjectsVariation::Group42Var4),
            Variation::Group42Var5 => Some(AllObjectsVariation::Group42Var5),
            Variation::Group42Var6 => Some(AllObjectsVariation::Group42Var6),
            Variation::Group42Var7 => Some(AllObjectsVariation::Group42Var7),
            Variation::Group42Var8 => Some(AllObjectsVariation::Group42Var8),
            Variation::Group43Var1 => Some(AllObjectsVariation::Group43Var1),
            Variation::Group43Var2 => Some(AllObjectsVariation::Group43Var2),
            Variation::Group43Var3 => Some(AllObjectsVariation::Group43Var3),
            Variation::Group43Var4 => Some(AllObjectsVariation::Group43Var4),
            Variation::Group43Var5 => Some(AllObjectsVariation::Group43Var5),
            Variation::Group43Var6 => Some(AllObjectsVariation::Group43Var6),
            Variation::Group43Var7 => Some(AllObjectsVariation::Group43Var7),
            Variation::Group43Var8 => Some(AllObjectsVariation::Group43Var8),
            Variation::Group60Var1 => Some(AllObjectsVariation::Group60Var1),
            Variation::Group60Var2 => Some(AllObjectsVariation::Group60Var2),
            Variation::Group60Var3 => Some(AllObjectsVariation::Group60Var3),
            Variation::Group60Var4 => Some(AllObjectsVariation::Group60Var4),
            Variation::Group110(0) => Some(AllObjectsVariation::Group110Var0),
            Variation::Group111(0) => Some(AllObjectsVariation::Group111Var0),
            _ => None,
        }
    }

    /// the all-objects variation of `v`, or `None` where `v` may not be used
    /// with the all-objects qualifier
    pub fn get(v: Variation) -> (r: Option<AllObjectsVariation>)
        ensures
            r matches Some(a) ==> a.to_variation() == v,
            r is None ==> forall|a: AllObjectsVariation| #[trigger] a.to_variation() != v,
            r == AllObjectsVariation::spec_get(v),
    {
        match v {
            Variation::Group1Var0 => Some(AllObjectsVariation::Group1Var0),
            Variation::Group1Var1 => Some(AllObjectsVariation::Group1Var1),
            Variation::Group1Var2 => Some(AllObjectsVariation::Group1Var2),
            Variation::Group2Var0 => Some(AllObjectsVariation::Group2Var0),
            Variation::Group2Var1 => Some(AllObjectsVariation::Group2Var1),
            Variation::Group2Var2 => Some(AllObjectsVariation::Group2Var2),
            Variation::Group2Var3 => Some(AllObjectsVariation::Group2Var3),
            Variation::Group3Var0 => Some(AllObjectsVariation::Group3Var0),
            Variation::Group3Var1 => Some(AllObjectsVariation::Group3Var1),
            Variation::Group3Var2 => Some(AllObjectsVariation::Group3Var2),
            Variation::Group4Var0 => Some(AllObjectsVariation::Group4Var0),
            Variation::Group4Var1 => Some(AllObjectsVariation::Group4Var1),
            Variation::Group4Var2 => Some(AllObjectsVariation::Group4Var2),
            Variation::Group4Var3 => Some(AllObjectsVariation::Group4Var3),
            Variation::Group10Var0 => Some(AllObjectsVariation::Group10Var0),
            Variation::Group10Var1 => Some(AllObjectsVariation::Group10Var1),
            Variation::Group10Var2 => Some(AllObjectsVariation::Group10Var2),
            Variation::Group11Var0 => Some(AllObjectsVariation::Group11Var0),
            Variation::Group11Var1 => Some(AllObjectsVariation::Group11Var1),
            Variation::Group11Var2 => Some(AllObjectsVariation::Group11Var2),
            Variation::Group13Var1 => Some(AllObjectsVariation::Group13Var1),
            Variation::Group13Var2 => Some(AllObjectsVariation::Group13Var2),
            Variation::Group20Var0 => Some(AllObjectsVariation::Group20Var0),
            Variation::Group20Var1 => Some(AllObjectsVariation::Group20Var1),
            Variation::Group20Var2 => Some(AllObjectsVariation::Group20Var2),
            Variation::Group20Var5 => Some(AllObjectsVariation::Group20Var5),
            Variation::Group20Var6 => Some(AllObjectsVariation::Group20Var6),
            Variation::Group21Var0 => Some(AllObjectsVariation::Group21Var0),
            Variation::Group21Var1 => Some(AllObjectsVariation::Group21Var1),
            Variation::Group21Var2 => Some(AllObjectsVariation::Group21Var2),
            Variation::Group21Var5 => Some(AllObjectsVariation::Group21Var5),
            Variation::Group21Var6 => Some(AllObjectsVariation::Group21Var6),
            Variation::Group21Var9 => Some(AllObjectsVariation::Group21Var9),
            Variation::Group21Var10 => Some(AllObjectsVariation::Group21Var10),
            Variation::Group22Var0 => Some(AllObjectsVariation::Group22Var0),
            Variation::Group22Var1 => Some(AllObjectsVariation::Group22Var1),
            Variation::Group22Var2 => Some(AllObjectsVariation::Group22Var2),
            Variation::Group22Var5 => Some(AllObjectsVariation::Group22Var5),
            Variation::Group22Var6 => Some(AllObjectsVariation::Group22Var6),
            Variation::Group23Var0 => Some(AllObjectsVariation::Group23Var0),
            Variation::Group23Var1 => Some(AllObjectsVariation::Group23Var1),
            Variation::Group23Var2 => Some(AllObjectsVariation::Group23Var2),
            Variation::Group23Var5 => Some(AllObjectsVariation::Group23Var5),
            Variation::Group23Var6 => Some(AllObjectsVariation::Group23Var6),
            Variation::Group30Var0 => Some(AllObjectsVariation::Group30Var0),
            Variation::Group30Var1 => Some(AllObjectsVariation::Group30Var1),
            Variation::Group30Var2 => Some(AllObjectsVariation::Group30Var2),
            Variation::Group30Var3 => Some(AllObjectsVariation::Group30Var3),
            Variation::Group30Var4 => Some(AllObjectsVariation::Group30Var4),
            Variation::Group30Var5 => Some(AllObjectsVariation::Group30Var5),
            Variation::Group30Var6 => Some(AllObjectsVariation::Group30Var6),
            Variation::Group32Var0 => Some(AllObjectsVariation::Group32Var0),
            Variation::Group32Var1 => Some(AllObjectsVariation::Group32Var1),
            Variation::Group32Var2 => Some(AllObjectsVariation::Group32Var2),
            Variation::Group32Var3 => Some(AllObjectsVariation::Group32Var3),
            Variation::Group32Var4 => Some(AllObjectsVariation::Group32Var4),
            Variation::Group32Var5 => Some(AllObjectsVariation::Group32Var5),
            Variation::Group32Var6 => Some(AllObjectsVariation::Group32Var6),
            Variation::Group32Var7 => Some(AllObjectsVariation::Group32Var7),
            Variation::Group32Var8 => Some(AllObjectsVariation::Group32Var8),
            Variation::Group40Var0 => Some(AllObjectsVariation::Group40Var0),
            Variation::Group40Var1 => Some(AllObjectsVariation::Group40Var1),
            Variation::Group40Var2 => Some(AllObjectsVariation::Group40Var2),
            Variation::Group40Var3 => Some(AllObjectsVariation::Group40Var3),
            Variation::Group40Var4 => Some(AllObjectsVariation::Group40Var4),
            Variation::Group42Var0 => Some(AllObjectsVariation::Group42Var0),
            Variation::Group42Var1 => Some(AllObjectsVariation::Group42Var1),
            Variation::Group42Var2 => Some(AllObjectsVariation::Group42Var2),
            Variation::Group42Var3 => Some(AllObjectsVariation::Group42Var3),
            Variation::Group42Var4 => Some(AllObjectsVariation::Group42Var4),
            Variation::Group42Var5 => Some(AllObjectsVariation::Group42Var5),
            Variation::Group42Var6 => Some(AllObjectsVariation::Group42Var6),
            Variation::Group42Var7 => Some(AllObjectsVariation::Group42Var7),
            Variation::Group42Var8 => Some(AllObjectsVariation::Group42Var8),
            Variation::Group43Var1 => Some(AllObjectsVariation::Group43Var1),
            Variation::Group43Var2 => Some(AllObjectsVariation::Group43Var2),
            Variation::Group43Var3 => Some(AllObjectsVariation::Group43Var3),
            Variation::Group43Var4 => Some(AllObjectsVariation::Group43Var4),
            Variation::Group43Var5 => Some(AllObjectsVariation::Group43Var5),
            Variation::Group43Var6 => Some(AllObjectsVariation::Group43Var6),
            Variation::Group43Var7 => Some(AllObjectsVariation::Group43Var7),
            Variation::Group43Var8 => Some(AllObjectsVariation::Group43Var8),
            Variation::Group60Var1 => Some(AllObjectsVariation::Group60Var1),
            Variation::Group60Var2 => Some(AllObjectsVariation::Group60Var2),
            Variation::Group60Var3 => Some(AllObjectsVariation::Group60Var3),
            Variation::Group60Var4 => Some(AllObjectsVariation::Group60Var4),
            Variation::Group110(0) => Some(AllObjectsVariation::Group110Var0),
            Variation::Group111(0) => Some(AllObjectsVariation::Group111Var0),
            _ => None,
        }
    }
}

} // verus!
