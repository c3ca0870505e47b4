//! ArchiMate 3.2 validation: a data-driven derivability matrix.
use vstd::prelude::*;
use vstd::string::StringExecFns;
use crate::model::{ElementKind, ElementLayer, Model, RelationKind, Relationship};

verus! {

/// A single validation error.
#[derive(Debug, Clone)]
pub struct ValidationError {
    pub code: String,
    pub message: String,
    pub element_source: String,
    pub suggestion: String,
}

/// Full validation report.
#[derive(Debug, Clone)]
pub struct ValidationResult {
    pub success: bool,
    pub errors: Vec<ValidationError>,
}

/// One entry of the derivability matrix: `(source layer, relation kind, target layer)`.
pub type Derivation = (ElementLayer, RelationKind, ElementLayer);

/// The derivability rules of ArchiMate 3.2 as this engine applies them.
///
/// Structural relations, triggering, flow and specialization stay within a
/// layer; realization may also cross upward; serving descends from
/// technology towards strategy; access links the application layer with
/// its neighbours and itself; influence and association connect any layers.
pub open spec fn derivable(s: ElementLayer, k: RelationKind, t: ElementLayer) -> bool {
    match k {
        RelationKind::Composition | RelationKind::Aggregation | RelationKind::Assignment => s == t,
        RelationKind::Realization => {
            ||| s == t
            ||| s == ElementLayer::Implementation && (t == ElementLayer::Strategy
                || t == ElementLayer::Business || t == ElementLayer::Application
                || t == ElementLayer::Technology || t == ElementLayer::Physical)
            ||| s == ElementLayer::Technology && (t == ElementLayer::Application || t == ElementLayer::Business)
            ||| s == ElementLayer::Application && t == ElementLayer::Business
        },
        RelationKind::Serving => {
            ||| s == ElementLayer::Physical && t == ElementLayer::Technology
            ||| s == ElementLayer::Technology && t == ElementLayer::Application
            ||| s == ElementLayer::Technology && t == ElementLayer::Business
            ||| s == ElementLayer::Application && t == ElementLayer::Business
            ||| s == ElementLayer::Application && t == ElementLayer::Strategy
            ||| s == ElementLayer::Business && t == ElementLayer::Strategy
        },
        RelationKind::Access => {
            ||| s == ElementLayer::Application && t == ElementLayer::Technology
            ||| s == ElementLayer::Technology && t == ElementLayer::Application
            ||| s == ElementLayer::Application && t == ElementLayer::Business
            ||| s == ElementLayer::Business && t == ElementLayer::Application
            ||| s == ElementLayer::Application && t == ElementLayer::Application
        },
        RelationKind::Influence | RelationKind::Association => true,
        RelationKind::Triggering | RelationKind::Flow | RelationKind::Specialization => s == t,
    }
}

/// Number of entries in the derivability matrix.
pub open spec fn allowed_len() -> nat { 203 }

/// The `j`-th entry of the derivability matrix, in table order.
pub open spec fn allowed_row(j: int) -> Derivation {
    if j == 0 {
        (ElementLayer::Strategy, RelationKind::Composition, ElementLayer::Strategy)
    } else if j == 1 {
        (ElementLayer::Strategy, RelationKind::Aggregation, ElementLayer::Strategy)
    } else if j == 2 {
        (ElementLayer::Strategy, RelationKind::Assignment, ElementLayer::Strategy)
    } else if j == 3 {
        (ElementLayer::Strategy, RelationKind::Realization, ElementLayer::Strategy)
    } else if j == 4 {
        (ElementLayer::Business, RelationKind::Composition, ElementLayer::Business)
    } else if j == 5 {
        (ElementLayer::Business, RelationKind::Aggregation, ElementLayer::Business)
    } else if j == 6 {
        (ElementLayer::Business, RelationKind::Assignment, ElementLayer::Business)
    } else if j == 7 {
        (ElementLayer::Business, RelationKind::Realization, ElementLayer::Business)
    } else if j == 8 {
        (ElementLayer::Application, RelationKind::Composition, ElementLayer::Application)
    } else if j == 9 {
        (ElementLayer::Application, RelationKind::Aggregation, ElementLayer::Application)
    } else if j == 10 {
        (ElementLayer::Application, RelationKind::Assignment, ElementLayer::Application)
    } else if j == 11 {
        (ElementLayer::Application, RelationKind::Realization, ElementLayer::Application)
    } else if j == 12 {
        (ElementLayer::Technology, RelationKind::Composition, ElementLayer::Technology)
    } else if j == 13 {
        (ElementLayer::Technology, RelationKind::Aggregation, ElementLayer::Technology)
    } else if j == 14 {
        (ElementLayer::Technology, RelationKind::Assignment, ElementLayer::Technology)
    } else if j == 15 {
        (ElementLayer::Technology, RelationKind::Realization, ElementLayer::Technology)
    } else if j == 16 {
        (ElementLayer::Physical, RelationKind::Composition, ElementLayer::Physical)
    } else if j == 17 {
        (ElementLayer::Physical, RelationKind::Aggregation, ElementLayer::Physical)
    } else if j == 18 {
        (ElementLayer::Physical, RelationKind::Assignment, ElementLayer::Physical)
    } else if j == 19 {
        (ElementLayer::Physical, RelationKind::Realization, ElementLayer::Physical)
    } else if j == 20 {
        (ElementLayer::Motivation, RelationKind::Composition, ElementLayer::Motivation)
    } else if j == 21 {
        (ElementLayer::Motivation, RelationKind::Aggregation, ElementLayer::Motivation)
    } else if j == 22 {
        (ElementLayer::Motivation, RelationKind::Assignment, ElementLayer::Motivation)
    } else if j == 23 {
        (ElementLayer::Motivation, RelationKind::Realization, ElementLayer::Motivation)
    } else if j == 24 {
        (ElementLayer::Implementation, RelationKind::Composition, ElementLayer::Implementation)
    } else if j == 25 {
        (ElementLayer::Implementation, RelationKind::Aggregation, ElementLayer::Implementation)
    } else if j == 26 {
        (ElementLayer::Implementation, RelationKind::Assignment, ElementLayer::Implementation)
    } else if j == 27 {
        (ElementLayer::Implementation, RelationKind::Realization, ElementLayer::Implementation)
    } else if j == 28 {
        (ElementLayer::Other, RelationKind::Composition, ElementLayer::Other)
    } else if j == 29 {
        (ElementLayer::Other, RelationKind::Aggregation, ElementLayer::Other)
    } else if j == 30 {
        (ElementLayer::Other, RelationKind::Assignment, ElementLayer::Other)
    } else if j == 31 {
        (ElementLayer::Other, RelationKind::Realization, ElementLayer::Other)
    } else if j == 32 {
        (ElementLayer::Implementation, RelationKind::Realization, ElementLayer::Strategy)
    } else if j == 33 {
        (ElementLayer::Implementation, RelationKind::Realization, ElementLayer::Business)
    } else if j == 34 {
        (ElementLayer::Implementation, RelationKind::Realization, ElementLayer::Application)
    } else if j == 35 {
        (ElementLayer::Implementation, RelationKind::Realization, ElementLayer::Technology)
    } else if j == 36 {
        (ElementLayer::Implementation, RelationKind::Realization, ElementLayer::Physical)
    } else if j == 37 {
        (ElementLayer::Technology, RelationKind::Realization, ElementLayer::Application)
    } else if j == 38 {
        (ElementLayer::Technology, RelationKind::Realization, ElementLayer::Business)
    } else if j == 39 {
        (ElementLayer::Application, RelationKind::Realization, ElementLayer::Business)
    } else if j == 40 {
        (ElementLayer::Physical, RelationKind::Serving, ElementLayer::Technology)
    } else if j == 41 {
        (ElementLayer::Technology, RelationKind::Serving, ElementLayer::Application)
    } else if j == 42 {
        (ElementLayer::Technology, RelationKind::Serving, ElementLayer::Business)
    } else if j == 43 {
        (ElementLayer::Application, RelationKind::Serving, ElementLayer::Business)
    } else if j == 44 {
        (ElementLayer::Application, RelationKind::Serving, ElementLayer::Strategy)
    } else if j == 45 {
        (ElementLayer::Business, RelationKind::Serving, ElementLayer::Strategy)
    } else if j == 46 {
        (ElementLayer::Application, RelationKind::Access, ElementLayer::Technology)
    } else if j == 47 {
        (ElementLayer::Technology, RelationKind::Access, ElementLayer::Application)
    } else if j == 48 {
        (ElementLayer::Application, RelationKind::Access, ElementLayer::Business)
    } else if j == 49 {
        (ElementLayer::Business, RelationKind::Access, ElementLayer::Application)
    } else if j == 50 {
        (ElementLayer::Application, RelationKind::Access, ElementLayer::Application)
    } else if j == 51 {
        (ElementLayer::Strategy, RelationKind::Influence, ElementLayer::Strategy)
    } else if j == 52 {
        (ElementLayer::Strategy, RelationKind::Influence, ElementLayer::Business)
    } else if j == 53 {
        (ElementLayer::Strategy, RelationKind::Influence, ElementLayer::Application)
    } else if j == 54 {
        (ElementLayer::Strategy, RelationKind::Influence, ElementLayer::Technology)
    } else if j == 55 {
        (ElementLayer::Strategy, RelationKind::Influence, ElementLayer::Physical)
    } else if j == 56 {
        (ElementLayer::Strategy, RelationKind::Influence, ElementLayer::Motivation)
    } else if j == 57 {
        (ElementLayer::Strategy, RelationKind::Influence, ElementLayer::Implementation)
    } else if j == 58 {
        (ElementLayer::Strategy, RelationKind::Influence, ElementLayer::Other)
    } else if j == 59 {
        (ElementLayer::Business, RelationKind::Influence, ElementLayer::Strategy)
    } else if j == 60 {
        (ElementLayer::Business, RelationKind::Influence, ElementLayer::Business)
    } else if j == 61 {
        (ElementLayer::Business, RelationKind::Influence, ElementLayer::Application)
    } else if j == 62 {
        (ElementLayer::Business, RelationKind::Influence, ElementLayer::Technology)
    } else if j == 63 {
        (ElementLayer::Business, RelationKind::Influence, ElementLayer::Physical)
    } else if j == 64 {
        (ElementLayer::Business, RelationKind::Influence, ElementLayer::Motivation)
    } else if j == 65 {
        (ElementLayer::Business, RelationKind::Influence, ElementLayer::Implementation)
    } else if j == 66 {
        (ElementLayer::Business, RelationKind::Influence, ElementLayer::Other)
    } else if j == 67 {
        (ElementLayer::Application, RelationKind::Influence, ElementLayer::Strategy)
    } else if j == 68 {
        (ElementLayer::Application, RelationKind::Influence, ElementLayer::Business)
    } else if j == 69 {
        (ElementLayer::Application, RelationKind::Influence, ElementLayer::Application)
    } else if j == 70 {
        (ElementLayer::Application, RelationKind::Influence, ElementLayer::Technology)
    } else if j == 71 {
        (ElementLayer::Application, RelationKind::Influence, ElementLayer::Physical)
    } else if j == 72 {
        (ElementLayer::Application, RelationKind::Influence, ElementLayer::Motivation)
    } else if j == 73 {
        (ElementLayer::Application, RelationKind::Influence, ElementLayer::Implementation)
    } else if j == 74 {
        (ElementLayer::Application, RelationKind::Influence, ElementLayer::Other)
    } else if j == 75 {
        (ElementLayer::Technology, RelationKind::Influence, ElementLayer::Strategy)
    } else if j == 76 {
        (ElementLayer::Technology, RelationKind::Influence, ElementLayer::Business)
    } else if j == 77 {
        (ElementLayer::Technology, RelationKind::Influence, ElementLayer::Application)
    } else if j == 78 {
        (ElementLayer::Technology, RelationKind::Influence, ElementLayer::Technology)
    } else if j == 79 {
        (ElementLayer::Technology, RelationKind::Influence, ElementLayer::Physical)
    } else if j == 80 {
        (ElementLayer::Technology, RelationKind::Influence, ElementLayer::Motivation)
    } else if j == 81 {
        (ElementLayer::Technology, RelationKind::Influence, ElementLayer::Implementation)
    } else if j == 82 {
        (ElementLayer::Technology, RelationKind::Influence, ElementLayer::Other)
    } else if j == 83 {
        (ElementLayer::Physical, RelationKind::Influence, ElementLayer::Strategy)
    } else if j == 84 {
        (ElementLayer::Physical, RelationKind::Influence, ElementLayer::Business)
    } else if j == 85 {
        (ElementLayer::Physical, RelationKind::Influence, ElementLayer::Application)
    } else if j == 86 {
        (ElementLayer::Physical, RelationKind::Influence, ElementLayer::Technology)
    } else if j == 87 {
        (ElementLayer::Physical, RelationKind::Influence, ElementLayer::Physical)
    } else if j == 88 {
        (ElementLayer::Physical, RelationKind::Influence, ElementLayer::Motivation)
    } else if j == 89 {
        (ElementLayer::Physical, RelationKind::Influence, ElementLayer::Implementation)
    } else if j == 90 {
        (ElementLayer::Physical, RelationKind::Influence, ElementLayer::Other)
    } else if j == 91 {
        (ElementLayer::Motivation, RelationKind::Influence, ElementLayer::Strategy)
    } else if j == 92 {
        (ElementLayer::Motivation, RelationKind::Influence, ElementLayer::Business)
    } else if j == 93 {
        (ElementLayer::Motivation, RelationKind::Influence, ElementLayer::Application)
    } else if j == 94 {
        (ElementLayer::Motivation, RelationKind::Influence, ElementLayer::Technology)
    } else if j == 95 {
        (ElementLayer::Motivation, RelationKind::Influence, ElementLayer::Physical)
    } else if j == 96 {
        (ElementLayer::Motivation, RelationKind::Influence, ElementLayer::Motivation)
    } else if j == 97 {
        (ElementLayer::Motivation, RelationKind::Influence, ElementLayer::Implementation)
    } else if j == 98 {
        (ElementLayer::Motivation, RelationKind::Influence, ElementLayer::Other)
    } else if j == 99 {
        (ElementLayer::Implementation, RelationKind::Influence, ElementLayer::Strategy)
    } else if j == 100 {
        (ElementLayer::Implementation, RelationKind::Influence, ElementLayer::Business)
    } else if j == 101 {
        (ElementLayer::Implementation, RelationKind::Influence, ElementLayer::Application)
    } else if j == 102 {
        (ElementLayer::Implementation, RelationKind::Influence, ElementLayer::Technology)
    } else if j == 103 {
        (ElementLayer::Implementation, RelationKind::Influence, ElementLayer::Physical)
    } else if j == 104 {
        (ElementLayer::Implementation, RelationKind::Influence, ElementLayer::Motivation)
    } else if j == 105 {
        (ElementLayer::Implementation, RelationKind::Influence, ElementLayer::Implementation)
    } else if j == 106 {
        (ElementLayer::Implementation, RelationKind::Influence, ElementLayer::Other)
    } else if j == 107 {
        (ElementLayer::Other, RelationKind::Influence, ElementLayer::Strategy)
    } else if j == 108 {
        (ElementLayer::Other, RelationKind::Influence, ElementLayer::Business)
    } else if j == 109 {
        (ElementLayer::Other, RelationKind::Influence, ElementLayer::Application)
    } else if j == 110 {
        (ElementLayer::Other, RelationKind::Influence, ElementLayer::Technology)
    } else if j == 111 {
        (ElementLayer::Other, RelationKind::Influence, ElementLayer::Physical)
    } else if j == 112 {
        (ElementLayer::Other, RelationKind::Influence, ElementLayer::Motivation)
    } else if j == 113 {
        (ElementLayer::Other, RelationKind::Influence, ElementLayer::Implementation)
    } else if j == 114 {
        (ElementLayer::Other, RelationKind::Influence, ElementLayer::Other)
    } else if j == 115 {
        (ElementLayer::Strategy, RelationKind::Association, ElementLayer::Strategy)
    } else if j == 116 {
        (ElementLayer::Strategy, RelationKind::Association, ElementLayer::Business)
    } else if j == 117 {
        (ElementLayer::Strategy, RelationKind::Association, ElementLayer::Application)
    } else if j == 118 {
        (ElementLayer::Strategy, RelationKind::Association, ElementLayer::Technology)
    } else if j == 119 {
        (ElementLayer::Strategy, RelationKind::Association, ElementLayer::Physical)
    } else if j == 120 {
        (ElementLayer::Strategy, RelationKind::Association, ElementLayer::Motivation)
    } else if j == 121 {
        (ElementLayer::Strategy, RelationKind::Association, ElementLayer::Implementation)
    } else if j == 122 {
        (ElementLayer::Strategy, RelationKind::Association, ElementLayer::Other)
    } else if j == 123 {
        (ElementLayer::Business, RelationKind::Association, ElementLayer::Strategy)
    } else if j == 124 {
        (ElementLayer::Business, RelationKind::Association, ElementLayer::Business)
    } else if j == 125 {
        (ElementLayer::Business, RelationKind::Association, ElementLayer::Application)
    } else if j == 126 {
        (ElementLayer::Business, RelationKind::Association, ElementLayer::Technology)
    } else if j == 127 {
        (ElementLayer::Business, RelationKind::Association, ElementLayer::Physical)
    } else if j == 128 {
        (ElementLayer::Business, RelationKind::Association, ElementLayer::Motivation)
    } else if j == 129 {
        (ElementLayer::Business, RelationKind::Association, ElementLayer::Implementation)
    } else if j == 130 {
        (ElementLayer::Business, RelationKind::Association, ElementLayer::Other)
    } else if j == 131 {
        (ElementLayer::Application, RelationKind::Association, ElementLayer::Strategy)
    } else if j == 132 {
        (ElementLayer::Application, RelationKind::Association, ElementLayer::Business)
    } else if j == 133 {
        (ElementLayer::Application, RelationKind::Association, ElementLayer::Application)
    } else if j == 134 {
        (ElementLayer::Application, RelationKind::Association, ElementLayer::Technology)
    } else if j == 135 {
        (ElementLayer::Application, RelationKind::Association, ElementLayer::Physical)
    } else if j == 136 {
        (ElementLayer::Application, RelationKind::Association, ElementLayer::Motivation)
    } else if j == 137 {
        (ElementLayer::Application, RelationKind::Association, ElementLayer::Implementation)
    } else if j == 138 {
        (ElementLayer::Application, RelationKind::Association, ElementLayer::Other)
    } else if j == 139 {
        (ElementLayer::Technology, RelationKind::Association, ElementLayer::Strategy)
    } else if j == 140 {
        (ElementLayer::Technology, RelationKind::Association, ElementLayer::Business)
    } else if j == 141 {
        (ElementLayer::Technology, RelationKind::Association, ElementLayer::Application)
    } else if j == 142 {
        (ElementLayer::Technology, RelationKind::Association, ElementLayer::Technology)
    } else if j == 143 {
        (ElementLayer::Technology, RelationKind::Association, ElementLayer::Physical)
    } else if j == 144 {
        (ElementLayer::Technology, RelationKind::Association, ElementLayer::Motivation)
    } else if j == 145 {
        (ElementLayer::Technology, RelationKind::Association, ElementLayer::Implementation)
    } else if j == 146 {
        (ElementLayer::Technology, RelationKind::Association, ElementLayer::Other)
    } else if j == 147 {
        (ElementLayer::Physical, RelationKind::Association, ElementLayer::Strategy)
    } else if j == 148 {
        (ElementLayer::Physical, RelationKind::Association, ElementLayer::Business)
    } else if j == 149 {
        (ElementLayer::Physical, RelationKind::Association, ElementLayer::Application)
    } else if j == 150 {
        (ElementLayer::Physical, RelationKind::Association, ElementLayer::Technology)
    } else if j == 151 {
        (ElementLayer::Physical, RelationKind::Association, ElementLayer::Physical)
    } else if j == 152 {
        (ElementLayer::Physical, RelationKind::Association, ElementLayer::Motivation)
    } else if j == 153 {
        (ElementLayer::Physical, RelationKind::Association, ElementLayer::Implementation)
    } else if j == 154 {
        (ElementLayer::Physical, RelationKind::Association, ElementLayer::Other)
    } else if j == 155 {
        (ElementLayer::Motivation, RelationKind::Association, ElementLayer::Strategy)
    } else if j == 156 {
        (ElementLayer::Motivation, RelationKind::Association, ElementLayer::Business)
    } else if j == 157 {
        (ElementLayer::Motivation, RelationKind::Association, ElementLayer::Application)
    } else if j == 158 {
        (ElementLayer::Motivation, RelationKind::Association, ElementLayer::Technology)
    } else if j == 159 {
        (ElementLayer::Motivation, RelationKind::Association, ElementLayer::Physical)
    } else if j == 160 {
        (ElementLayer::Motivation, RelationKind::Association, ElementLayer::Motivation)
    } else if j == 161 {
        (ElementLayer::Motivation, RelationKind::Association, ElementLayer::Implementation)
    } else if j == 162 {
        (ElementLayer::Motivation, RelationKind::Association, ElementLayer::Other)
    } else if j == 163 {
        (ElementLayer::Implementation, RelationKind::Association, ElementLayer::Strategy)
    } else if j == 164 {
        (ElementLayer::Implementation, RelationKind::Association, ElementLayer::Business)
    } else if j == 165 {
        (ElementLayer::Implementation, RelationKind::Association, ElementLayer::Application)
    } else if j == 166 {
        (ElementLayer::Implementation, RelationKind::Association, ElementLayer::Technology)
    } else if j == 167 {
        (ElementLayer::Implementation, RelationKind::Association, ElementLayer::Physical)
    } else if j == 168 {
        (ElementLayer::Implementation, RelationKind::Association, ElementLayer::Motivation)
    } else if j == 169 {
        (ElementLayer::Implementation, RelationKind::Association, ElementLayer::Implementation)
    } else if j == 170 {
        (ElementLayer::Implementation, RelationKind::Association, ElementLayer::Other)
    } else if j == 171 {
        (ElementLayer::Other, RelationKind::Association, ElementLayer::Strategy)
    } else if j == 172 {
        (ElementLayer::Other, RelationKind::Association, ElementLayer::Business)
    } else if j == 173 {
        (ElementLayer::Other, RelationKind::Association, ElementLayer::Application)
    } else if j == 174 {
        (ElementLayer::Other, RelationKind::Association, ElementLayer::Technology)
    } else if j == 175 {
        (ElementLayer::Other, RelationKind::Association, ElementLayer::Physical)
    } else if j == 176 {
        (ElementLayer::Other, RelationKind::Association, ElementLayer::Motivation)
    } else if j == 177 {
        (ElementLayer::Other, RelationKind::Association, ElementLayer::Implementation)
    } else if j == 178 {
        (ElementLayer::Other, RelationKind::Association, ElementLayer::Other)
    } else if j == 179 {
        (ElementLayer::Strategy, RelationKind::Triggering, ElementLayer::Strategy)
    } else if j == 180 {
        (ElementLayer::Strategy, RelationKind::Flow, ElementLayer::Strategy)
    } else if j == 181 {
        (ElementLayer::Business, RelationKind::Triggering, ElementLayer::Business)
    } else if j == 182 {
        (ElementLayer::Business, RelationKind::Flow, ElementLayer::Business)
    } else if j == 183 {
        (ElementLayer::Application, RelationKind::Triggering, ElementLayer::Application)
    } else if j == 184 {
        (ElementLayer::Application, RelationKind::Flow, ElementLayer::Application)
    } else if j == 185 {
        (ElementLayer::Technology, RelationKind::Triggering, ElementLayer::Technology)
    } else if j == 186 {
        (ElementLayer::Technology, RelationKind::Flow, ElementLayer::Technology)
    } else if j == 187 {
        (ElementLayer::Physical, RelationKind::Triggering, ElementLayer::Physical)
    } else if j == 188 {
        (ElementLayer::Physical, RelationKind::Flow, ElementLayer::Physical)
    } else if j == 189 {
        (ElementLayer::Motivation, RelationKind::Triggering, ElementLayer::Motivation)
    } else if j == 190 {
        (ElementLayer::Motivation, RelationKind::Flow, ElementLayer::Motivation)
    } else if j == 191 {
        (ElementLayer::Implementation, RelationKind::Triggering, ElementLayer::Implementation)
    } else if j == 192 {
        (ElementLayer::Implementation, RelationKind::Flow, ElementLayer::Implementation)
    } else if j == 193 {
        (ElementLayer::Other, RelationKind::Triggering, ElementLayer::Other)
    } else if j == 194 {
        (ElementLayer::Other, RelationKind::Flow, ElementLayer::Other)
    } else if j == 195 {
        (ElementLayer::Strategy, RelationKind::Specialization, ElementLayer::Strategy)
    } else if j == 196 {
        (ElementLayer::Business, RelationKind::Specialization, ElementLayer::Business)
    } else if j == 197 {
        (ElementLayer::Application, RelationKind::Specialization, ElementLayer::Application)
    } else if j == 198 {
        (ElementLayer::Technology, RelationKind::Specialization, ElementLayer::Technology)
    } else if j == 199 {
        (ElementLayer::Physical, RelationKind::Specialization, ElementLayer::Physical)
    } else if j == 200 {
        (ElementLayer::Motivation, RelationKind::Specialization, ElementLayer::Motivation)
    } else if j == 201 {
        (ElementLayer::Implementation, RelationKind::Specialization, ElementLayer::Implementation)
    } else {
        (ElementLayer::Other, RelationKind::Specialization, ElementLayer::Other)
    }
}

/// The derivability matrix, in table order.
pub open spec fn allowed_table() -> Seq<Derivation> {
    Seq::new(allowed_len(), |j: int| allowed_row(j))
}

/// The `j`-th entry of the derivability matrix.
fn allowed_entry(j: usize) -> (res: Derivation)
    requires
        j < allowed_len(),
    ensures
        res == allowed_row(j as int),
{
    if j == 0 {
        (ElementLayer::Strategy, RelationKind::Composition, ElementLayer::Strategy)
    } else if j == 1 {
        (ElementLayer::Strategy, RelationKind::Aggregation, ElementLayer::Strategy)
    } else if j == 2 {
        (ElementLayer::Strategy, RelationKind::Assignment, ElementLayer::Strategy)
    } else if j == 3 {
        (ElementLayer::Strategy, RelationKind::Realization, ElementLayer::Strategy)
    } else if j == 4 {
        (ElementLayer::Business, RelationKind::Composition, ElementLayer::Business)
    } else if j == 5 {
        (ElementLayer::Business, RelationKind::Aggregation, ElementLayer::Business)
    } else if j == 6 {
        (ElementLayer::Business, RelationKind::Assignment, ElementLayer::Business)
    } else if j == 7 {
        (ElementLayer::Business, RelationKind::Realization, ElementLayer::Business)
    } else if j == 8 {
        (ElementLayer::Application, RelationKind::Composition, ElementLayer::Application)
    } else if j == 9 {
        (ElementLayer::Application, RelationKind::Aggregation, ElementLayer::Application)
    } else if j == 10 {
        (ElementLayer::Application, RelationKind::Assignment, ElementLayer::Application)
    } else if j == 11 {
        (ElementLayer::Application, RelationKind::Realization, ElementLayer::Application)
    } else if j == 12 {
        (ElementLayer::Technology, RelationKind::Composition, ElementLayer::Technology)
    } else if j == 13 {
        (ElementLayer::Technology, RelationKind::Aggregation, ElementLayer::Technology)
    } else if j == 14 {
        (ElementLayer::Technology, RelationKind::Assignment, ElementLayer::Technology)
    } else if j == 15 {
        (ElementLayer::Technology, RelationKind::Realization, ElementLayer::Technology)
    } else if j == 16 {
        (ElementLayer::Physical, RelationKind::Composition, ElementLayer::Physical)
    } else if j == 17 {
        (ElementLayer::Physical, RelationKind::Aggregation, ElementLayer::Physical)
    } else if j == 18 {
        (ElementLayer::Physical, RelationKind::Assignment, ElementLayer::Physical)
    } else if j == 19 {
        (ElementLayer::Physical, RelationKind::Realization, ElementLayer::Physical)
    } else if j == 20 {
        (ElementLayer::Motivation, RelationKind::Composition, ElementLayer::Motivation)
    } else if j == 21 {
        (ElementLayer::Motivation, RelationKind::Aggregation, ElementLayer::Motivation)
    } else if j == 22 {
        (ElementLayer::Motivation, RelationKind::Assignment, ElementLayer::Motivation)
    } else if j == 23 {
        (ElementLayer::Motivation, RelationKind::Realization, ElementLayer::Motivation)
    } else if j == 24 {
        (ElementLayer::Implementation, RelationKind::Composition, ElementLayer::Implementation)
    } else if j == 25 {
        (ElementLayer::Implementation, RelationKind::Aggregation, ElementLayer::Implementation)
    } else if j == 26 {
        (ElementLayer::Implementation, RelationKind::Assignment, ElementLayer::Implementation)
    } else if j == 27 {
        (ElementLayer::Implementation, RelationKind::Realization, ElementLayer::Implementation)
    } else if j == 28 {
        (ElementLayer::Other, RelationKind::Composition, ElementLayer::Other)
    } else if j == 29 {
        (ElementLayer::Other, RelationKind::Aggregation, ElementLayer::Other)
    } else if j == 30 {
        (ElementLayer::Other, RelationKind::Assignment, ElementLayer::Other)
    } else if j == 31 {
        (ElementLayer::Other, RelationKind::Realization, ElementLayer::Other)
    } else if j == 32 {
        (ElementLayer::Implementation, RelationKind::Realization, ElementLayer::Strategy)
    } else if j == 33 {
        (ElementLayer::Implementation, RelationKind::Realization, ElementLayer::Business)
    } else if j == 34 {
        (ElementLayer::Implementation, RelationKind::Realization, ElementLayer::Application)
    } else if j == 35 {
        (ElementLayer::Implementation, RelationKind::Realization, ElementLayer::Technology)
    } else if j == 36 {
        (ElementLayer::Implementation, RelationKind::Realization, ElementLayer::Physical)
    } else if j == 37 {
        (ElementLayer::Technology, RelationKind::Realization, ElementLayer::Application)
    } else if j == 38 {
        (ElementLayer::Technology, RelationKind::Realization, ElementLayer::Business)
    } else if j == 39 {
        (ElementLayer::Application, RelationKind::Realization, ElementLayer::Business)
    } else if j == 40 {
        (ElementLayer::Physical, RelationKind::Serving, ElementLayer::Technology)
    } else if j == 41 {
        (ElementLayer::Technology, RelationKind::Serving, ElementLayer::Application)
    } else if j == 42 {
        (ElementLayer::Technology, RelationKind::Serving, ElementLayer::Business)
    } else if j == 43 {
        (ElementLayer::Application, RelationKind::Serving, ElementLayer::Business)
    } else if j == 44 {
        (ElementLayer::Application, RelationKind::Serving, ElementLayer::Strategy)
    } else if j == 45 {
        (ElementLayer::Business, RelationKind::Serving, ElementLayer::Strategy)
    } else if j == 46 {
        (ElementLayer::Application, RelationKind::Access, ElementLayer::Technology)
    } else if j == 47 {
        (ElementLayer::Technology, RelationKind::Access, ElementLayer::Application)
    } else if j == 48 {
        (ElementLayer::Application, RelationKind::Access, ElementLayer::Business)
    } else if j == 49 {
        (ElementLayer::Business, RelationKind::Access, ElementLayer::Application)
    } else if j == 50 {
        (ElementLayer::Application, RelationKind::Access, ElementLayer::Application)
    } else if j == 51 {
        (ElementLayer::Strategy, RelationKind::Influence, ElementLayer::Strategy)
    } else if j == 52 {
        (ElementLayer::Strategy, RelationKind::Influence, ElementLayer::Business)
    } else if j == 53 {
        (ElementLayer::Strategy, RelationKind::Influence, ElementLayer::Application)
    } else if j == 54 {
        (ElementLayer::Strategy, RelationKind::Influence, ElementLayer::Technology)
    } else if j == 55 {
        (ElementLayer::Strategy, RelationKind::Influence, ElementLayer::Physical)
    } else if j == 56 {
        (ElementLayer::Strategy, RelationKind::Influence, ElementLayer::Motivation)
    } else if j == 57 {
        (ElementLayer::Strategy, RelationKind::Influence, ElementLayer::Implementation)
    } else if j == 58 {
        (ElementLayer::Strategy, RelationKind::Influence, ElementLayer::Other)
    } else if j == 59 {
        (ElementLayer::Business, RelationKind::Influence, ElementLayer::Strategy)
    } else if j == 60 {
        (ElementLayer::Business, RelationKind::Influence, ElementLayer::Business)
    } else if j == 61 {
        (ElementLayer::Business, RelationKind::Influence, ElementLayer::Application)
    } else if j == 62 {
        (ElementLayer::Business, RelationKind::Influence, ElementLayer::Technology)
    } else if j == 63 {
        (ElementLayer::Business, RelationKind::Influence, ElementLayer::Physical)
    } else if j == 64 {
        (ElementLayer::Business, RelationKind::Influence, ElementLayer::Motivation)
    } else if j == 65 {
        (ElementLayer::Business, RelationKind::Influence, ElementLayer::Implementation)
    } else if j == 66 {
        (ElementLayer::Business, RelationKind::Influence, ElementLayer::Other)
    } else if j == 67 {
        (ElementLayer::Application, RelationKind::Influence, ElementLayer::Strategy)
    } else if j == 68 {
        (ElementLayer::Application, RelationKind::Influence, ElementLayer::Business)
    } else if j == 69 {
        (ElementLayer::Application, RelationKind::Influence, ElementLayer::Application)
    } else if j == 70 {
        (ElementLayer::Application, RelationKind::Influence, ElementLayer::Technology)
    } else if j == 71 {
        (ElementLayer::Application, RelationKind::Influence, ElementLayer::Physical)
    } else if j == 72 {
        (ElementLayer::Application, RelationKind::Influence, ElementLayer::Motivation)
    } else if j == 73 {
        (ElementLayer::Application, RelationKind::Influence, ElementLayer::Implementation)
    } else if j == 74 {
        (ElementLayer::Application, RelationKind::Influence, ElementLayer::Other)
    } else if j == 75 {
        (ElementLayer::Technology, RelationKind::Influence, ElementLayer::Strategy)
    } else if j == 76 {
        (ElementLayer::Technology, RelationKind::Influence, ElementLayer::Business)
    } else if j == 77 {
        (ElementLayer::Technology, RelationKind::Influence, ElementLayer::Application)
    } else if j == 78 {
        (ElementLayer::Technology, RelationKind::Influence, ElementLayer::Technology)
    } else if j == 79 {
        (ElementLayer::Technology, RelationKind::Influence, ElementLayer::Physical)
    } else if j == 80 {
        (ElementLayer::Technology, RelationKind::Influence, ElementLayer::Motivation)
    } else if j == 81 {
        (ElementLayer::Technology, RelationKind::Influence, ElementLayer::Implementation)
    } else if j == 82 {
        (ElementLayer::Technology, RelationKind::Influence, ElementLayer::Other)
    } else if j == 83 {
        (ElementLayer::Physical, RelationKind::Influence, ElementLayer::Strategy)
    } else if j == 84 {
        (ElementLayer::Physical, RelationKind::Influence, ElementLayer::Business)
    } else if j == 85 {
        (ElementLayer::Physical, RelationKind::Influence, ElementLayer::Application)
    } else if j == 86 {
        (ElementLayer::Physical, RelationKind::Influence, ElementLayer::Technology)
    } else if j == 87 {
        (ElementLayer::Physical, RelationKind::Influence, ElementLayer::Physical)
    } else if j == 88 {
        (ElementLayer::Physical, RelationKind::Influence, ElementLayer::Motivation)
    } else if j == 89 {
        (ElementLayer::Physical, RelationKind::Influence, ElementLayer::Implementation)
    } else if j == 90 {
        (ElementLayer::Physical, RelationKind::Influence, ElementLayer::Other)
    } else if j == 91 {
        (ElementLayer::Motivation, RelationKind::Influence, ElementLayer::Strategy)
    } else if j == 92 {
        (ElementLayer::Motivation, RelationKind::Influence, ElementLayer::Business)
    } else if j == 93 {
        (ElementLayer::Motivation, RelationKind::Influence, ElementLayer::Application)
    } else if j == 94 {
        (ElementLayer::Motivation, RelationKind::Influence, ElementLayer::Technology)
    } else if j == 95 {
        (ElementLayer::Motivation, RelationKind::Influence, ElementLayer::Physical)
    } else if j == 96 {
        (ElementLayer::Motivation, RelationKind::Influence, ElementLayer::Motivation)
    } else if j == 97 {
        (ElementLayer::Motivation, RelationKind::Influence, ElementLayer::Implementation)
    } else if j == 98 {
        (ElementLayer::Motivation, RelationKind::Influence, ElementLayer::Other)
    } else if j == 99 {
        (ElementLayer::Implementation, RelationKind::Influence, ElementLayer::Strategy)
    } else if j == 100 {
        (ElementLayer::Implementation, RelationKind::Influence, ElementLayer::Business)
    } else if j == 101 {
        (ElementLayer::Implementation, RelationKind::Influence, ElementLayer::Application)
    } else if j == 102 {
        (ElementLayer::Implementation, RelationKind::Influence, ElementLayer::Technology)
    } else if j == 103 {
        (ElementLayer::Implementation, RelationKind::Influence, ElementLayer::Physical)
    } else if j == 104 {
        (ElementLayer::Implementation, RelationKind::Influence, ElementLayer::Motivation)
    } else if j == 105 {
        (ElementLayer::Implementation, RelationKind::Influence, ElementLayer::Implementation)
    } else if j == 106 {
        (ElementLayer::Implementation, RelationKind::Influence, ElementLayer::Other)
    } else if j == 107 {
        (ElementLayer::Other, RelationKind::Influence, ElementLayer::Strategy)
    } else if j == 108 {
        (ElementLayer::Other, RelationKind::Influence, ElementLayer::Business)
    } else if j == 109 {
        (ElementLayer::Other, RelationKind::Influence, ElementLayer::Application)
    } else if j == 110 {
        (ElementLayer::Other, RelationKind::Influence, ElementLayer::Technology)
    } else if j == 111 {
        (ElementLayer::Other, RelationKind::Influence, ElementLayer::Physical)
    } else if j == 112 {
        (ElementLayer::Other, RelationKind::Influence, ElementLayer::Motivation)
    } else if j == 113 {
        (ElementLayer::Other, RelationKind::Influence, ElementLayer::Implementation)
    } else if j == 114 {
        (ElementLayer::Other, RelationKind::Influence, ElementLayer::Other)
    } else if j == 115 {
        (ElementLayer::Strategy, RelationKind::Association, ElementLayer::Strategy)
    } else if j == 116 {
        (ElementLayer::Strategy, RelationKind::Association, ElementLayer::Business)
    } else if j == 117 {
        (ElementLayer::Strategy, RelationKind::Association, ElementLayer::Application)
    } else if j == 118 {
        (ElementLayer::Strategy, RelationKind::Association, ElementLayer::Technology)
    } else if j == 119 {
        (ElementLayer::Strategy, RelationKind::Association, ElementLayer::Physical)
    } else if j == 120 {
        (ElementLayer::Strategy, RelationKind::Association, ElementLayer::Motivation)
    } else if j == 121 {
        (ElementLayer::Strategy, RelationKind::Association, ElementLayer::Implementation)
    } else if j == 122 {
        (ElementLayer::Strategy, RelationKind::Association, ElementLayer::Other)
    } else if j == 123 {
        (ElementLayer::Business, RelationKind::Association, ElementLayer::Strategy)
    } else if j == 124 {
        (ElementLayer::Business, RelationKind::Association, ElementLayer::Business)
    } else if j == 125 {
        (ElementLayer::Business, RelationKind::Association, ElementLayer::Application)
    } else if j == 126 {
        (ElementLayer::Business, RelationKind::Association, ElementLayer::Technology)
    } else if j == 127 {
        (ElementLayer::Business, RelationKind::Association, ElementLayer::Physical)
    } else if j == 128 {
        (ElementLayer::Business, RelationKind::Association, ElementLayer::Motivation)
    } else if j == 129 {
        (ElementLayer::Business, RelationKind::Association, ElementLayer::Implementation)
    } else if j == 130 {
        (ElementLayer::Business, RelationKind::Association, ElementLayer::Other)
    } else if j == 131 {
        (ElementLayer::Application, RelationKind::Association, ElementLayer::Strategy)
    } else if j == 132 {
        (ElementLayer::Application, RelationKind::Association, ElementLayer::Business)
    } else if j == 133 {
        (ElementLayer::Application, RelationKind::Association, ElementLayer::Application)
    } else if j == 134 {
        (ElementLayer::Application, RelationKind::Association, ElementLayer::Technology)
    } else if j == 135 {
        (ElementLayer::Application, RelationKind::Association, ElementLayer::Physical)
    } else if j == 136 {
        (ElementLayer::Application, RelationKind::Association, ElementLayer::Motivation)
    } else if j == 137 {
        (ElementLayer::Application, RelationKind::Association, ElementLayer::Implementation)
    } else if j == 138 {
        (ElementLayer::Application, RelationKind::Association, ElementLayer::Other)
    } else if j == 139 {
        (ElementLayer::Technology, RelationKind::Association, ElementLayer::Strategy)
    } else if j == 140 {
        (ElementLayer::Technology, RelationKind::Association, ElementLayer::Business)
    } else if j == 141 {
        (ElementLayer::Technology, RelationKind::Association, ElementLayer::Application)
    } else if j == 142 {
        (ElementLayer::Technology, RelationKind::Association, ElementLayer::Technology)
    } else if j == 143 {
        (ElementLayer::Technology, RelationKind::Association, ElementLayer::Physical)
    } else if j == 144 {
        (ElementLayer::Technology, RelationKind::Association, ElementLayer::Motivation)
    } else if j == 145 {
        (ElementLayer::Technology, RelationKind::Association, ElementLayer::Implementation)
    } else if j == 146 {
        (ElementLayer::Technology, RelationKind::Association, ElementLayer::Other)
    } else if j == 147 {
        (ElementLayer::Physical, RelationKind::Association, ElementLayer::Strategy)
    } else if j == 148 {
        (ElementLayer::Physical, RelationKind::Association, ElementLayer::Business)
    } else if j == 149 {
        (ElementLayer::Physical, RelationKind::Association, ElementLayer::Application)
    } else if j == 150 {
        (ElementLayer::Physical, RelationKind::Association, ElementLayer::Technology)
    } else if j == 151 {
        (ElementLayer::Physical, RelationKind::Association, ElementLayer::Physical)
    } else if j == 152 {
        (ElementLayer::Physical, RelationKind::Association, ElementLayer::Motivation)
    } else if j == 153 {
        (ElementLayer::Physical, RelationKind::Association, ElementLayer::Implementation)
    } else if j == 154 {
        (ElementLayer::Physical, RelationKind::Association, ElementLayer::Other)
    } else if j == 155 {
        (ElementLayer::Motivation, RelationKind::Association, ElementLayer::Strategy)
    } else if j == 156 {
        (ElementLayer::Motivation, RelationKind::Association, ElementLayer::Business)
    } else if j == 157 {
        (ElementLayer::Motivation, RelationKind::Association, ElementLayer::Application)
    } else if j == 158 {
        (ElementLayer::Motivation, RelationKind::Association, ElementLayer::Technology)
    } else if j == 159 {
        (ElementLayer::Motivation, RelationKind::Association, ElementLayer::Physical)
    } else if j == 160 {
        (ElementLayer::Motivation, RelationKind::Association, ElementLayer::Motivation)
    } else if j == 161 {
        (ElementLayer::Motivation, RelationKind::Association, ElementLayer::Implementation)
    } else if j == 162 {
        (ElementLayer::Motivation, RelationKind::Association, ElementLayer::Other)
    } else if j == 163 {
        (ElementLayer::Implementation, RelationKind::Association, ElementLayer::Strategy)
    } else if j == 164 {
        (ElementLayer::Implementation, RelationKind::Association, ElementLayer::Business)
    } else if j == 165 {
        (ElementLayer::Implementation, RelationKind::Association, ElementLayer::Application)
    } else if j == 166 {
        (ElementLayer::Implementation, RelationKind::Association, ElementLayer::Technology)
    } else if j == 167 {
        (ElementLayer::Implementation, RelationKind::Association, ElementLayer::Physical)
    } else if j == 168 {
        (ElementLayer::Implementation, RelationKind::Association, ElementLayer::Motivation)
    } else if j == 169 {
        (ElementLayer::Implementation, RelationKind::Association, ElementLayer::Implementation)
    } else if j == 170 {
        (ElementLayer::Implementation, RelationKind::Association, ElementLayer::Other)
    } else if j == 171 {
        (ElementLayer::Other, RelationKind::Association, ElementLayer::Strategy)
    } else if j == 172 {
        (ElementLayer::Other, RelationKind::Association, ElementLayer::Business)
    } else if j == 173 {
        (ElementLayer::Other, RelationKind::Association, ElementLayer::Application)
    } else if j == 174 {
        (ElementLayer::Other, RelationKind::Association, ElementLayer::Technology)
    } else if j == 175 {
        (ElementLayer::Other, RelationKind::Association, ElementLayer::Physical)
    } else if j == 176 {
        (ElementLayer::Other, RelationKind::Association, ElementLayer::Motivation)
    } else if j == 177 {
        (ElementLayer::Other, RelationKind::Association, ElementLayer::Implementation)
    } else if j == 178 {
        (ElementLayer::Other, RelationKind::Association, ElementLayer::Other)
    } else if j == 179 {
        (ElementLayer::Strategy, RelationKind::Triggering, ElementLayer::Strategy)
    } else if j == 180 {
        (ElementLayer::Strategy, RelationKind::Flow, ElementLayer::Strategy)
    } else if j == 181 {
        (ElementLayer::Business, RelationKind::Triggering, ElementLayer::Business)
    } else if j == 182 {
        (ElementLayer::Business, RelationKind::Flow, ElementLayer::Business)
    } else if j == 183 {
        (ElementLayer::Application, RelationKind::Triggering, ElementLayer::Application)
    } else if j == 184 {
        (ElementLayer::Application, RelationKind::Flow, ElementLayer::Application)
    } else if j == 185 {
        (ElementLayer::Technology, RelationKind::Triggering, ElementLayer::Technology)
    } else if j == 186 {
        (ElementLayer::Technology, RelationKind::Flow, ElementLayer::Technology)
    } else if j == 187 {
        (ElementLayer::Physical, RelationKind::Triggering, ElementLayer::Physical)
    } else if j == 188 {
        (ElementLayer::Physical, RelationKind::Flow, ElementLayer::Physical)
    } else if j == 189 {
        (ElementLayer::Motivation, RelationKind::Triggering, ElementLayer::Motivation)
    } else if j == 190 {
        (ElementLayer::Motivation, RelationKind::Flow, ElementLayer::Motivation)
    } else if j == 191 {
        (ElementLayer::Implementation, RelationKind::Triggering, ElementLayer::Implementation)
    } else if j == 192 {
        (ElementLayer::Implementation, RelationKind::Flow, ElementLayer::Implementation)
    } else if j == 193 {
        (ElementLayer::Other, RelationKind::Triggering, ElementLayer::Other)
    } else if j == 194 {
        (ElementLayer::Other, RelationKind::Flow, ElementLayer::Other)
    } else if j == 195 {
        (ElementLayer::Strategy, RelationKind::Specialization, ElementLayer::Strategy)
    } else if j == 196 {
        (ElementLayer::Business, RelationKind::Specialization, ElementLayer::Business)
    } else if j == 197 {
        (ElementLayer::Application, RelationKind::Specialization, ElementLayer::Application)
    } else if j == 198 {
        (ElementLayer::Technology, RelationKind::Specialization, ElementLayer::Technology)
    } else if j == 199 {
        (ElementLayer::Physical, RelationKind::Specialization, ElementLayer::Physical)
    } else if j == 200 {
        (ElementLayer::Motivation, RelationKind::Specialization, ElementLayer::Motivation)
    } else if j == 201 {
        (ElementLayer::Implementation, RelationKind::Specialization, ElementLayer::Implementation)
    } else {
        (ElementLayer::Other, RelationKind::Specialization, ElementLayer::Other)
    }
}

const ALLOWED_LEN: usize = 203;

/// Builds the derivability matrix.
fn allowed_matrix() -> (res: Vec<Derivation>)
    ensures
        res@ == allowed_table(),
{
    let mut v: Vec<Derivation> = Vec::new();
    let n: usize = ALLOWED_LEN;
    for j in 0..n
        invariant
            n == allowed_len(),
            v@ == allowed_table().take(j as int),
    {
        v.push(allowed_entry(j));
        assert(allowed_table().take(j + 1) =~= allowed_table().take(j as int).push(allowed_row(j as int)));
    }
    assert(allowed_table().take(n as int) =~= allowed_table());
    v
}

/// Every entry of the matrix is an instance of the derivability rules.
proof fn lemma_rows_derivable(j: int)
    requires
        0 <= j < allowed_len(),
    ensures
        derivable(allowed_row(j).0, allowed_row(j).1, allowed_row(j).2),
{
}

/// Every instance of the derivability rules is an entry of the matrix.
proof fn lemma_rules_in_table(s: ElementLayer, k: RelationKind, t: ElementLayer)
    requires
        derivable(s, k, t),
    ensures
        allowed_table().contains((s, k, t)),
{
    match (s, k, t) {
        (ElementLayer::Strategy, RelationKind::Composition, ElementLayer::Strategy) => assert(allowed_table()[0] == (s, k, t)),
        (ElementLayer::Strategy, RelationKind::Aggregation, ElementLayer::Strategy) => assert(allowed_table()[1] == (s, k, t)),
        (ElementLayer::Strategy, RelationKind::Assignment, ElementLayer::Strategy) => assert(allowed_table()[2] == (s, k, t)),
        (ElementLayer::Strategy, RelationKind::Realization, ElementLayer::Strategy) => assert(allowed_table()[3] == (s, k, t)),
        (ElementLayer::Business, RelationKind::Composition, ElementLayer::Business) => assert(allowed_table()[4] == (s, k, t)),
        (ElementLayer::Business, RelationKind::Aggregation, ElementLayer::Business) => assert(allowed_table()[5] == (s, k, t)),
        (ElementLayer::Business, RelationKind::Assignment, ElementLayer::Business) => assert(allowed_table()[6] == (s, k, t)),
        (ElementLayer::Business, RelationKind::Realization, ElementLayer::Business) => assert(allowed_table()[7] == (s, k, t)),
        (ElementLayer::Application, RelationKind::Composition, ElementLayer::Application) => assert(allowed_table()[8] == (s, k, t)),
        (ElementLayer::Application, RelationKind::Aggregation, ElementLayer::Application) => assert(allowed_table()[9] == (s, k, t)),
        (ElementLayer::Application, RelationKind::Assignment, ElementLayer::Application) => assert(allowed_table()[10] == (s, k, t)),
        (ElementLayer::Application, RelationKind::Realization, ElementLayer::Application) => assert(allowed_table()[11] == (s, k, t)),
        (ElementLayer::Technology, RelationKind::Composition, ElementLayer::Technology) => assert(allowed_table()[12] == (s, k, t)),
        (ElementLayer::Technology, RelationKind::Aggregation, ElementLayer::Technology) => assert(allowed_table()[13] == (s, k, t)),
        (ElementLayer::Technology, RelationKind::Assignment, ElementLayer::Technology) => assert(allowed_table()[14] == (s, k, t)),
        (ElementLayer::Technology, RelationKind::Realization, ElementLayer::Technology) => assert(allowed_table()[15] == (s, k, t)),
        (ElementLayer::Physical, RelationKind::Composition, ElementLayer::Physical) => assert(allowed_table()[16] == (s, k, t)),
        (ElementLayer::Physical, RelationKind::Aggregation, ElementLayer::Physical) => assert(allowed_table()[17] == (s, k, t)),
        (ElementLayer::Physical, RelationKind::Assignment, ElementLayer::Physical) => assert(allowed_table()[18] == (s, k, t)),
        (ElementLayer::Physical, RelationKind::Realization, ElementLayer::Physical) => assert(allowed_table()[19] == (s, k, t)),
        (ElementLayer::Motivation, RelationKind::Composition, ElementLayer::Motivation) => assert(allowed_table()[20] == (s, k, t)),
        (ElementLayer::Motivation, RelationKind::Aggregation, ElementLayer::Motivation) => assert(allowed_table()[21] == (s, k, t)),
        (ElementLayer::Motivation, RelationKind::Assignment, ElementLayer::Motivation) => assert(allowed_table()[22] == (s, k, t)),
        (ElementLayer::Motivation, RelationKind::Realization, ElementLayer::Motivation) => assert(allowed_table()[23] == (s, k, t)),
        (ElementLayer::Implementation, RelationKind::Composition, ElementLayer::Implementation) => assert(allowed_table()[24] == (s, k, t)),
        (ElementLayer::Implementation, RelationKind::Aggregation, ElementLayer::Implementation) => assert(allowed_table()[25] == (s, k, t)),
        (ElementLayer::Implementation, RelationKind::Assignment, ElementLayer::Implementation) => assert(allowed_table()[26] == (s, k, t)),
        (ElementLayer::Implementation, RelationKind::Realization, ElementLayer::Implementation) => assert(allowed_table()[27] == (s, k, t)),
        (ElementLayer::Other, RelationKind::Composition, ElementLayer::Other) => assert(allowed_table()[28] == (s, k, t)),
        (ElementLayer::Other, RelationKind::Aggregation, ElementLayer::Other) => assert(allowed_table()[29] == (s, k, t)),
        (ElementLayer::Other, RelationKind::Assignment, ElementLayer::Other) => assert(allowed_table()[30] == (s, k, t)),
        (ElementLayer::Other, RelationKind::Realization, ElementLayer::Other) => assert(allowed_table()[31] == (s, k, t)),
        (ElementLayer::Implementation, RelationKind::Realization, ElementLayer::Strategy) => assert(allowed_table()[32] == (s, k, t)),
        (ElementLayer::Implementation, RelationKind::Realization, ElementLayer::Business) => assert(allowed_table()[33] == (s, k, t)),
        (ElementLayer::Implementation, RelationKind::Realization, ElementLayer::Application) => assert(allowed_table()[34] == (s, k, t)),
        (ElementLayer::Implementation, RelationKind::Realization, ElementLayer::Technology) => assert(allowed_table()[35] == (s, k, t)),
        (ElementLayer::Implementation, RelationKind::Realization, ElementLayer::Physical) => assert(allowed_table()[36] == (s, k, t)),
        (ElementLayer::Technology, RelationKind::Realization, ElementLayer::Application) => assert(allowed_table()[37] == (s, k, t)),
        (ElementLayer::Technology, RelationKind::Realization, ElementLayer::Business) => assert(allowed_table()[38] == (s, k, t)),
        (ElementLayer::Application, RelationKind::Realization, ElementLayer::Business) => assert(allowed_table()[39] == (s, k, t)),
        (ElementLayer::Physical, RelationKind::Serving, ElementLayer::Technology) => assert(allowed_table()[40] == (s, k, t)),
        (ElementLayer::Technology, RelationKind::Serving, ElementLayer::Application) => assert(allowed_table()[41] == (s, k, t)),
        (ElementLayer::Technology, RelationKind::Serving, ElementLayer::Business) => assert(allowed_table()[42] == (s, k, t)),
        (ElementLayer::Application, RelationKind::Serving, ElementLayer::Business) => assert(allowed_table()[43] == (s, k, t)),
        (ElementLayer::Application, RelationKind::Serving, ElementLayer::Strategy) => assert(allowed_table()[44] == (s, k, t)),
        (ElementLayer::Business, RelationKind::Serving, ElementLayer::Strategy) => assert(allowed_table()[45] == (s, k, t)),
        (ElementLayer::Application, RelationKind::Access, ElementLayer::Technology) => assert(allowed_table()[46] == (s, k, t)),
        (ElementLayer::Technology, RelationKind::Access, ElementLayer::Application) => assert(allowed_table()[47] == (s, k, t)),
        (ElementLayer::Application, RelationKind::Access, ElementLayer::Business) => assert(allowed_table()[48] == (s, k, t)),
        (ElementLayer::Business, RelationKind::Access, ElementLayer::Application) => assert(allowed_table()[49] == (s, k, t)),
        (ElementLayer::Application, RelationKind::Access, ElementLayer::Application) => assert(allowed_table()[50] == (s, k, t)),
        (ElementLayer::Strategy, RelationKind::Influence, ElementLayer::Strategy) => assert(allowed_table()[51] == (s, k, t)),
        (ElementLayer::Strategy, RelationKind::Influence, ElementLayer::Business) => assert(allowed_table()[52] == (s, k, t)),
        (ElementLayer::Strategy, RelationKind::Influence, ElementLayer::Application) => assert(allowed_table()[53] == (s, k, t)),
        (ElementLayer::Strategy, RelationKind::Influence, ElementLayer::Technology) => assert(allowed_table()[54] == (s, k, t)),
        (ElementLayer::Strategy, RelationKind::Influence, ElementLayer::Physical) => assert(allowed_table()[55] == (s, k, t)),
        (ElementLayer::Strategy, RelationKind::Influence, ElementLayer::Motivation) => assert(allowed_table()[56] == (s, k, t)),
        (ElementLayer::Strategy, RelationKind::Influence, ElementLayer::Implementation) => assert(allowed_table()[57] == (s, k, t)),
        (ElementLayer::Strategy, RelationKind::Influence, ElementLayer::Other) => assert(allowed_table()[58] == (s, k, t)),
        (ElementLayer::Business, RelationKind::Influence, ElementLayer::Strategy) => assert(allowed_table()[59] == (s, k, t)),
        (ElementLayer::Business, RelationKind::Influence, ElementLayer::Business) => assert(allowed_table()[60] == (s, k, t)),
        (ElementLayer::Business, RelationKind::Influence, ElementLayer::Application) => assert(allowed_table()[61] == (s, k, t)),
        (ElementLayer::Business, RelationKind::Influence, ElementLayer::Technology) => assert(allowed_table()[62] == (s, k, t)),
        (ElementLayer::Business, RelationKind::Influence, ElementLayer::Physical) => assert(allowed_table()[63] == (s, k, t)),
        (ElementLayer::Business, RelationKind::Influence, ElementLayer::Motivation) => assert(allowed_table()[64] == (s, k, t)),
        (ElementLayer::Business, RelationKind::Influence, ElementLayer::Implementation) => assert(allowed_table()[65] == (s, k, t)),
        (ElementLayer::Business, RelationKind::Influence, ElementLayer::Other) => assert(allowed_table()[66] == (s, k, t)),
        (ElementLayer::Application, RelationKind::Influence, ElementLayer::Strategy) => assert(allowed_table()[67] == (s, k, t)),
        (ElementLayer::Application, RelationKind::Influence, ElementLayer::Business) => assert(allowed_table()[68] == (s, k, t)),
        (ElementLayer::Application, RelationKind::Influence, ElementLayer::Application) => assert(allowed_table()[69] == (s, k, t)),
        (ElementLayer::Application, RelationKind::Influence, ElementLayer::Technology) => assert(allowed_table()[70] == (s, k, t)),
        (ElementLayer::Application, RelationKind::Influence, ElementLayer::Physical) => assert(allowed_table()[71] == (s, k, t)),
        (ElementLayer::Application, RelationKind::Influence, ElementLayer::Motivation) => assert(allowed_table()[72] == (s, k, t)),
        (ElementLayer::Application, RelationKind::Influence, ElementLayer::Implementation) => assert(allowed_table()[73] == (s, k, t)),
        (ElementLayer::Application, RelationKind::Influence, ElementLayer::Other) => assert(allowed_table()[74] == (s, k, t)),
        (ElementLayer::Technology, RelationKind::Influence, ElementLayer::Strategy) => assert(allowed_table()[75] == (s, k, t)),
        (ElementLayer::Technology, RelationKind::Influence, ElementLayer::Business) => assert(allowed_table()[76] == (s, k, t)),
        (ElementLayer::Technology, RelationKind::Influence, ElementLayer::Application) => assert(allowed_table()[77] == (s, k, t)),
        (ElementLayer::Technology, RelationKind::Influence, ElementLayer::Technology) => assert(allowed_table()[78] == (s, k, t)),
        (ElementLayer::Technology, RelationKind::Influence, ElementLayer::Physical) => assert(allowed_table()[79] == (s, k, t)),
        (ElementLayer::Technology, RelationKind::Influence, ElementLayer::Motivation) => assert(allowed_table()[80] == (s, k, t)),
        (ElementLayer::Technology, RelationKind::Influence, ElementLayer::Implementation) => assert(allowed_table()[81] == (s, k, t)),
        (ElementLayer::Technology, RelationKind::Influence, ElementLayer::Other) => assert(allowed_table()[82] == (s, k, t)),
        (ElementLayer::Physical, RelationKind::Influence, ElementLayer::Strategy) => assert(allowed_table()[83] == (s, k, t)),
        (ElementLayer::Physical, RelationKind::Influence, ElementLayer::Business) => assert(allowed_table()[84] == (s, k, t)),
        (ElementLayer::Physical, RelationKind::Influence, ElementLayer::Application) => assert(allowed_table()[85] == (s, k, t)),
        (ElementLayer::Physical, RelationKind::Influence, ElementLayer::Technology) => assert(allowed_table()[86] == (s, k, t)),
        (ElementLayer::Physical, RelationKind::Influence, ElementLayer::Physical) => assert(allowed_table()[87] == (s, k, t)),
        (ElementLayer::Physical, RelationKind::Influence, ElementLayer::Motivation) => assert(allowed_table()[88] == (s, k, t)),
        (ElementLayer::Physical, RelationKind::Influence, ElementLayer::Implementation) => assert(allowed_table()[89] == (s, k, t)),
        (ElementLayer::Physical, RelationKind::Influence, ElementLayer::Other) => assert(allowed_table()[90] == (s, k, t)),
        (ElementLayer::Motivation, RelationKind::Influence, ElementLayer::Strategy) => assert(allowed_table()[91] == (s, k, t)),
        (ElementLayer::Motivation, RelationKind::Influence, ElementLayer::Business) => assert(allowed_table()[92] == (s, k, t)),
        (ElementLayer::Motivation, RelationKind::Influence, ElementLayer::Application) => assert(allowed_table()[93] == (s, k, t)),
        (ElementLayer::Motivation, RelationKind::Influence, ElementLayer::Technology) => assert(allowed_table()[94] == (s, k, t)),
        (ElementLayer::Motivation, RelationKind::Influence, ElementLayer::Physical) => assert(allowed_table()[95] == (s, k, t)),
        (ElementLayer::Motivation, RelationKind::Influence, ElementLayer::Motivation) => assert(allowed_table()[96] == (s, k, t)),
        (ElementLayer::Motivation, RelationKind::Influence, ElementLayer::Implementation) => assert(allowed_table()[97] == (s, k, t)),
        (ElementLayer::Motivation, RelationKind::Influence, ElementLayer::Other) => assert(allowed_table()[98] == (s, k, t)),
        (ElementLayer::Implementation, RelationKind::Influence, ElementLayer::Strategy) => assert(allowed_table()[99] == (s, k, t)),
        (ElementLayer::Implementation, RelationKind::Influence, ElementLayer::Business) => assert(allowed_table()[100] == (s, k, t)),
        (ElementLayer::Implementation, RelationKind::Influence, ElementLayer::Application) => assert(allowed_table()[101] == (s, k, t)),
        (ElementLayer::Implementation, RelationKind::Influence, ElementLayer::Technology) => assert(allowed_table()[102] == (s, k, t)),
        (ElementLayer::Implementation, RelationKind::Influence, ElementLayer::Physical) => assert(allowed_table()[103] == (s, k, t)),
        (ElementLayer::Implementation, RelationKind::Influence, ElementLayer::Motivation) => assert(allowed_table()[104] == (s, k, t)),
        (ElementLayer::Implementation, RelationKind::Influence, ElementLayer::Implementation) => assert(allowed_table()[105] == (s, k, t)),
        (ElementLayer::Implementation, RelationKind::Influence, ElementLayer::Other) => assert(allowed_table()[106] == (s, k, t)),
        (ElementLayer::Other, RelationKind::Influence, ElementLayer::Strategy) => assert(allowed_table()[107] == (s, k, t)),
        (ElementLayer::Other, RelationKind::Influence, ElementLayer::Business) => assert(allowed_table()[108] == (s, k, t)),
        (ElementLayer::Other, RelationKind::Influence, ElementLayer::Application) => assert(allowed_table()[109] == (s, k, t)),
        (ElementLayer::Other, RelationKind::Influence, ElementLayer::Technology) => assert(allowed_table()[110] == (s, k, t)),
        (ElementLayer::Other, RelationKind::Influence, ElementLayer::Physical) => assert(allowed_table()[111] == (s, k, t)),
        (ElementLayer::Other, RelationKind::Influence, ElementLayer::Motivation) => assert(allowed_table()[112] == (s, k, t)),
        (ElementLayer::Other, RelationKind::Influence, ElementLayer::Implementation) => assert(allowed_table()[113] == (s, k, t)),
        (ElementLayer::Other, RelationKind::Influence, ElementLayer::Other) => assert(allowed_table()[114] == (s, k, t)),
        (ElementLayer::Strategy, RelationKind::Association, ElementLayer::Strategy) => assert(allowed_table()[115] == (s, k, t)),
        (ElementLayer::Strategy, RelationKind::Association, ElementLayer::Business) => assert(allowed_table()[116] == (s, k, t)),
        (ElementLayer::Strategy, RelationKind::Association, ElementLayer::Application) => assert(allowed_table()[117] == (s, k, t)),
        (ElementLayer::Strategy, RelationKind::Association, ElementLayer::Technology) => assert(allowed_table()[118] == (s, k, t)),
        (ElementLayer::Strategy, RelationKind::Association, ElementLayer::Physical) => assert(allowed_table()[119] == (s, k, t)),
        (ElementLayer::Strategy, RelationKind::Association, ElementLayer::Motivation) => assert(allowed_table()[120] == (s, k, t)),
        (ElementLayer::Strategy, RelationKind::Association, ElementLayer::Implementation) => assert(allowed_table()[121] == (s, k, t)),
        (ElementLayer::Strategy, RelationKind::Association, ElementLayer::Other) => assert(allowed_table()[122] == (s, k, t)),
        (ElementLayer::Business, RelationKind::Association, ElementLayer::Strategy) => assert(allowed_table()[123] == (s, k, t)),
        (ElementLayer::Business, RelationKind::Association, ElementLayer::Business) => assert(allowed_table()[124] == (s, k, t)),
        (ElementLayer::Business, RelationKind::Association, ElementLayer::Application) => assert(allowed_table()[125] == (s, k, t)),
        (ElementLayer::Business, RelationKind::Association, ElementLayer::Technology) => assert(allowed_table()[126] == (s, k, t)),
        (ElementLayer::Business, RelationKind::Association, ElementLayer::Physical) => assert(allowed_table()[127] == (s, k, t)),
        (ElementLayer::Business, RelationKind::Association, ElementLayer::Motivation) => assert(allowed_table()[128] == (s, k, t)),
        (ElementLayer::Business, RelationKind::Association, ElementLayer::Implementation) => assert(allowed_table()[129] == (s, k, t)),
        (ElementLayer::Business, RelationKind::Association, ElementLayer::Other) => assert(allowed_table()[130] == (s, k, t)),
        (ElementLayer::Application, RelationKind::Association, ElementLayer::Strategy) => assert(allowed_table()[131] == (s, k, t)),
        (ElementLayer::Application, RelationKind::Association, ElementLayer::Business) => assert(allowed_table()[132] == (s, k, t)),
        (ElementLayer::Application, RelationKind::Association, ElementLayer::Application) => assert(allowed_table()[133] == (s, k, t)),
        (ElementLayer::Application, RelationKind::Association, ElementLayer::Technology) => assert(allowed_table()[134] == (s, k, t)),
        (ElementLayer::Application, RelationKind::Association, ElementLayer::Physical) => assert(allowed_table()[135] == (s, k, t)),
        (ElementLayer::Application, RelationKind::Association, ElementLayer::Motivation) => assert(allowed_table()[136] == (s, k, t)),
        (ElementLayer::Application, RelationKind::Association, ElementLayer::Implementation) => assert(allowed_table()[137] == (s, k, t)),
        (ElementLayer::Application, RelationKind::Association, ElementLayer::Other) => assert(allowed_table()[138] == (s, k, t)),
        (ElementLayer::Technology, RelationKind::Association, ElementLayer::Strategy) => assert(allowed_table()[139] == (s, k, t)),
        (ElementLayer::Technology, RelationKind::Association, ElementLayer::Business) => assert(allowed_table()[140] == (s, k, t)),
        (ElementLayer::Technology, RelationKind::Association, ElementLayer::Application) => assert(allowed_table()[141] == (s, k, t)),
        (ElementLayer::Technology, RelationKind::Association, ElementLayer::Technology) => assert(allowed_table()[142] == (s, k, t)),
        (ElementLayer::Technology, RelationKind::Association, ElementLayer::Physical) => assert(allowed_table()[143] == (s, k, t)),
        (ElementLayer::Technology, RelationKind::Association, ElementLayer::Motivation) => assert(allowed_table()[144] == (s, k, t)),
        (ElementLayer::Technology, RelationKind::Association, ElementLayer::Implementation) => assert(allowed_table()[145] == (s, k, t)),
        (ElementLayer::Technology, RelationKind::Association, ElementLayer::Other) => assert(allowed_table()[146] == (s, k, t)),
        (ElementLayer::Physical, RelationKind::Association, ElementLayer::Strategy) => assert(allowed_table()[147] == (s, k, t)),
        (ElementLayer::Physical, RelationKind::Association, ElementLayer::Business) => assert(allowed_table()[148] == (s, k, t)),
        (ElementLayer::Physical, RelationKind::Association, ElementLayer::Application) => assert(allowed_table()[149] == (s, k, t)),
        (ElementLayer::Physical, RelationKind::Association, ElementLayer::Technology) => assert(allowed_table()[150] == (s, k, t)),
        (ElementLayer::Physical, RelationKind::Association, ElementLayer::Physical) => assert(allowed_table()[151] == (s, k, t)),
        (ElementLayer::Physical, RelationKind::Association, ElementLayer::Motivation) => assert(allowed_table()[152] == (s, k, t)),
        (ElementLayer::Physical, RelationKind::Association, ElementLayer::Implementation) => assert(allowed_table()[153] == (s, k, t)),
        (ElementLayer::Physical, RelationKind::Association, ElementLayer::Other) => assert(allowed_table()[154] == (s, k, t)),
        (ElementLayer::Motivation, RelationKind::Association, ElementLayer::Strategy) => assert(allowed_table()[155] == (s, k, t)),
        (ElementLayer::Motivation, RelationKind::Association, ElementLayer::Business) => assert(allowed_table()[156] == (s, k, t)),
        (ElementLayer::Motivation, RelationKind::Association, ElementLayer::Application) => assert(allowed_table()[157] == (s, k, t)),
        (ElementLayer::Motivation, RelationKind::Association, ElementLayer::Technology) => assert(allowed_table()[158] == (s, k, t)),
        (ElementLayer::Motivation, RelationKind::Association, ElementLayer::Physical) => assert(allowed_table()[159] == (s, k, t)),
        (ElementLayer::Motivation, RelationKind::Association, ElementLayer::Motivation) => assert(allowed_table()[160] == (s, k, t)),
        (ElementLayer::Motivation, RelationKind::Association, ElementLayer::Implementation) => assert(allowed_table()[161] == (s, k, t)),
        (ElementLayer::Motivation, RelationKind::Association, ElementLayer::Other) => assert(allowed_table()[162] == (s, k, t)),
        (ElementLayer::Implementation, RelationKind::Association, ElementLayer::Strategy) => assert(allowed_table()[163] == (s, k, t)),
        (ElementLayer::Implementation, RelationKind::Association, ElementLayer::Business) => assert(allowed_table()[164] == (s, k, t)),
        (ElementLayer::Implementation, RelationKind::Association, ElementLayer::Application) => assert(allowed_table()[165] == (s, k, t)),
        (ElementLayer::Implementation, RelationKind::Association, ElementLayer::Technology) => assert(allowed_table()[166] == (s, k, t)),
        (ElementLayer::Implementation, RelationKind::Association, ElementLayer::Physical) => assert(allowed_table()[167] == (s, k, t)),
        (ElementLayer::Implementation, RelationKind::Association, ElementLayer::Motivation) => assert(allowed_table()[168] == (s, k, t)),
        (ElementLayer::Implementation, RelationKind::Association, ElementLayer::Implementation) => assert(allowed_table()[169] == (s, k, t)),
        (ElementLayer::Implementation, RelationKind::Association, ElementLayer::Other) => assert(allowed_table()[170] == (s, k, t)),
        (ElementLayer::Other, RelationKind::Association, ElementLayer::Strategy) => assert(allowed_table()[171] == (s, k, t)),
        (ElementLayer::Other, RelationKind::Association, ElementLayer::Business) => assert(allowed_table()[172] == (s, k, t)),
        (ElementLayer::Other, RelationKind::Association, ElementLayer::Application) => assert(allowed_table()[173] == (s, k, t)),
        (ElementLayer::Other, RelationKind::Association, ElementLayer::Technology) => assert(allowed_table()[174] == (s, k, t)),
        (ElementLayer::Other, RelationKind::Association, ElementLayer::Physical) => assert(allowed_table()[175] == (s, k, t)),
        (ElementLayer::Other, RelationKind::Association, ElementLayer::Motivation) => assert(allowed_table()[176] == (s, k, t)),
        (ElementLayer::Other, RelationKind::Association, ElementLayer::Implementation) => assert(allowed_table()[177] == (s, k, t)),
        (ElementLayer::Other, RelationKind::Association, ElementLayer::Other) => assert(allowed_table()[178] == (s, k, t)),
        (ElementLayer::Strategy, RelationKind::Triggering, ElementLayer::Strategy) => assert(allowed_table()[179] == (s, k, t)),
        (ElementLayer::Strategy, RelationKind::Flow, ElementLayer::Strategy) => assert(allowed_table()[180] == (s, k, t)),
        (ElementLayer::Business, RelationKind::Triggering, ElementLayer::Business) => assert(allowed_table()[181] == (s, k, t)),
        (ElementLayer::Business, RelationKind::Flow, ElementLayer::Business) => assert(allowed_table()[182] == (s, k, t)),
        (ElementLayer::Application, RelationKind::Triggering, ElementLayer::Application) => assert(allowed_table()[183] == (s, k, t)),
        (ElementLayer::Application, RelationKind::Flow, ElementLayer::Application) => assert(allowed_table()[184] == (s, k, t)),
        (ElementLayer::Technology, RelationKind::Triggering, ElementLayer::Technology) => assert(allowed_table()[185] == (s, k, t)),
        (ElementLayer::Technology, RelationKind::Flow, ElementLayer::Technology) => assert(allowed_table()[186] == (s, k, t)),
        (ElementLayer::Physical, RelationKind::Triggering, ElementLayer::Physical) => assert(allowed_table()[187] == (s, k, t)),
        (ElementLayer::Physical, RelationKind::Flow, ElementLayer::Physical) => assert(allowed_table()[188] == (s, k, t)),
        (ElementLayer::Motivation, RelationKind::Triggering, ElementLayer::Motivation) => assert(allowed_table()[189] == (s, k, t)),
        (ElementLayer::Motivation, RelationKind::Flow, ElementLayer::Motivation) => assert(allowed_table()[190] == (s, k, t)),
        (ElementLayer::Implementation, RelationKind::Triggering, ElementLayer::Implementation) => assert(allowed_table()[191] == (s, k, t)),
        (ElementLayer::Implementation, RelationKind::Flow, ElementLayer::Implementation) => assert(allowed_table()[192] == (s, k, t)),
        (ElementLayer::Other, RelationKind::Triggering, ElementLayer::Other) => assert(allowed_table()[193] == (s, k, t)),
        (ElementLayer::Other, RelationKind::Flow, ElementLayer::Other) => assert(allowed_table()[194] == (s, k, t)),
        (ElementLayer::Strategy, RelationKind::Specialization, ElementLayer::Strategy) => assert(allowed_table()[195] == (s, k, t)),
        (ElementLayer::Business, RelationKind::Specialization, ElementLayer::Business) => assert(allowed_table()[196] == (s, k, t)),
        (ElementLayer::Application, RelationKind::Specialization, ElementLayer::Application) => assert(allowed_table()[197] == (s, k, t)),
        (ElementLayer::Technology, RelationKind::Specialization, ElementLayer::Technology) => assert(allowed_table()[198] == (s, k, t)),
        (ElementLayer::Physical, RelationKind::Specialization, ElementLayer::Physical) => assert(allowed_table()[199] == (s, k, t)),
        (ElementLayer::Motivation, RelationKind::Specialization, ElementLayer::Motivation) => assert(allowed_table()[200] == (s, k, t)),
        (ElementLayer::Implementation, RelationKind::Specialization, ElementLayer::Implementation) => assert(allowed_table()[201] == (s, k, t)),
        (ElementLayer::Other, RelationKind::Specialization, ElementLayer::Other) => assert(allowed_table()[202] == (s, k, t)),
        _ => {},
    }
}

/// The derivability matrix holds exactly the instances of the derivability rules.
pub proof fn lemma_table_matches_rules(s: ElementLayer, k: RelationKind, t: ElementLayer)
    ensures
        allowed_table().contains((s, k, t)) <==> derivable(s, k, t),
{
    if allowed_table().contains((s, k, t)) {
        let j = choose|j: int| 0 <= j < allowed_table().len() && allowed_table()[j] == (s, k, t);
        lemma_rows_derivable(j);
    }
    if derivable(s, k, t) {
        lemma_rules_in_table(s, k, t);
    }
}

/// Looks up a triple in the derivability matrix.
fn is_allowed(table: &[Derivation], s: ElementLayer, k: RelationKind, t: ElementLayer) -> (res: bool)
    requires
        table@ == allowed_table(),
    ensures
        res == derivable(s, k, t),
{
    proof {
        lemma_table_matches_rules(s, k, t);
    }
    let mut i: usize = 0;
    while i < table.len()
        invariant
            table@ == allowed_table(),
            0 <= i <= table@.len(),
            forall|j: int| 0 <= j < i ==> table@[j] != (s, k, t),
        decreases table@.len() - i,
    {
        let (a, b, c) = table[i];
        if a == s && b == k && c == t {
            assert(table@[i as int] == (s, k, t));
            return true;
        }
        i += 1;
    }
    false
}

/// The code carried by every derivability error.
pub open spec fn invalid_relationship_code() -> Seq<char> {
    "INVALID_RELATIONSHIP"@
}

/// The suggestion carried by every derivability error.
pub open spec fn invalid_relationship_suggestion() -> Seq<char> {
    "Change relation type or ensure source/target are compatible"@
}

/// The message of a derivability error: `<source> cannot <relation> <target>`.
pub open spec fn invalid_relationship_message(
    source_kind: ElementKind,
    target_kind: ElementKind,
    rel_kind: RelationKind,
) -> Seq<char> {
    source_kind.spec_kind_name() + " cannot "@ + rel_kind.spec_kind_name() + " "@
        + target_kind.spec_kind_name()
}

/// `e` is the error reported for a relationship of kind `rel_kind` from an
/// element of kind `source_kind` to one of kind `target_kind`.
pub open spec fn reports(
    e: ValidationError,
    source_kind: ElementKind,
    target_kind: ElementKind,
    rel_kind: RelationKind,
) -> bool {
    &&& e.code@ == invalid_relationship_code()
    &&& e.message@ == invalid_relationship_message(source_kind, target_kind, rel_kind)
    &&& e.element_source@ == source_kind.spec_kind_name()
    &&& e.suggestion@ == invalid_relationship_suggestion()
}

/// Whether a relationship between elements of the given kinds is derivable.
pub open spec fn kinds_derivable(
    source_kind: ElementKind,
    target_kind: ElementKind,
    rel_kind: RelationKind,
) -> bool {
    derivable(source_kind.spec_layer(), rel_kind, target_kind.spec_layer())
}

/// Builds the error for a relationship that the matrix does not allow.
fn relationship_error(
    source_kind: ElementKind,
    target_kind: ElementKind,
    rel_kind: RelationKind,
) -> (e: ValidationError)
    ensures
        reports(e, source_kind, target_kind, rel_kind),
{
    let mut message = source_kind.kind_name().to_owned();
    message.append(" cannot ");
    message.append(rel_kind.kind_name());
    message.append(" ");
    message.append(target_kind.kind_name());
    ValidationError {
        code: "INVALID_RELATIONSHIP".to_owned(),
        message,
        element_source: source_kind.kind_name().to_owned(),
        suggestion: "Change relation type or ensure source/target are compatible".to_owned(),
    }
}

/// Checks one relationship against the matrix that `table` holds.
fn check_relationship(
    table: &[Derivation],
    source_kind: ElementKind,
    target_kind: ElementKind,
    rel_kind: RelationKind,
) -> (res: Result<(), ValidationError>)
    requires
        table@ == allowed_table(),
    ensures
        res is Ok <==> kinds_derivable(source_kind, target_kind, rel_kind),
        res matches Err(e) ==> reports(e, source_kind, target_kind, rel_kind),
{
    if is_allowed(table, source_kind.layer(), rel_kind, target_kind.layer()) {
        Ok(())
    } else {
        Err(relationship_error(source_kind, target_kind, rel_kind))
    }
}

/// Validate a single relationship given the source and target element kinds.
pub fn validate_relationship(
    source_kind: ElementKind,
    target_kind: ElementKind,
    rel_kind: RelationKind,
) -> (res: Result<(), ValidationError>)
    ensures
        res is Ok <==> kinds_derivable(source_kind, target_kind, rel_kind),
        res matches Err(e) ==> reports(e, source_kind, target_kind, rel_kind),
{
    let table = allowed_matrix();
    check_relationship(table.as_slice(), source_kind, target_kind, rel_kind)
}

/// Whether a relationship of `m` is allowed by the matrix.
pub open spec fn relation_derivable(m: Model, r: Relationship) -> bool {
    kinds_derivable(
        m.spec_elements()[r.source.0 as int].kind,
        m.spec_elements()[r.target.0 as int].kind,
        r.kind,
    )
}

/// Holds of the relationships of `m` that the matrix does not allow.
pub open spec fn not_derivable_in(m: Model) -> spec_fn(Relationship) -> bool {
    |r: Relationship| !relation_derivable(m, r)
}

/// The relationships of `m` that the matrix does not allow, in model order.
pub open spec fn invalid_relations(m: Model) -> Seq<Relationship> {
    m.spec_relations().filter(not_derivable_in(m))
}

/// `errors` reports exactly the relationships in `rels`, one error each, in order.
pub open spec fn reports_all(m: Model, errors: Seq<ValidationError>, rels: Seq<Relationship>) -> bool {
    &&& errors.len() == rels.len()
    &&& forall|i: int| 0 <= i < errors.len() ==> reports(
        #[trigger] errors[i],
        m.spec_elements()[rels[i].source.0 as int].kind,
        m.spec_elements()[rels[i].target.0 as int].kind,
        rels[i].kind,
    )
}

/// Validate an entire model: one error per relationship the matrix does not
/// allow, in model order; the model is valid when there is none.
pub fn validate_model(model: &Model) -> (res: ValidationResult)
    requires
        model.endpoints_resolve(),
    ensures
        reports_all(*model, res.errors@, invalid_relations(*model)),
        res.success == (invalid_relations(*model).len() == 0),
{
    let table = allowed_matrix();
    let rels = model.relations_slice();
    let ghost p = not_derivable_in(*model);
    let mut errors: Vec<ValidationError> = Vec::new();
    let mut i: usize = 0;
    while i < rels.len()
        invariant
            table@ == allowed_table(),
            p == not_derivable_in(*model),
            rels@ == model.spec_relations(),
            model.endpoints_resolve(),
            0 <= i <= rels@.len(),
            reports_all(*model, errors@, rels@.take(i as int).filter(p)),
        decreases rels@.len() - i,
    {
        let rel = &rels[i];
        assert(rels@.take(i + 1) == rels@.take(i as int).push(rels@[i as int]));
        proof {
            rels@.take(i as int).lemma_filter_push(rels@[i as int], p);
        }
        let source_kind = model.element(rel.source).kind;
        let target_kind = model.element(rel.target).kind;
        assert(*rel == rels@[i as int]);
        assert(source_kind == model.spec_elements()[rels@[i as int].source.0 as int].kind);
        assert(target_kind == model.spec_elements()[rels@[i as int].target.0 as int].kind);
        assert(relation_derivable(*model, rels@[i as int]) == kinds_derivable(source_kind, target_kind, rel.kind));
        assert(p(rels@[i as int]) == !kinds_derivable(source_kind, target_kind, rel.kind));
        let ghost before = errors@;
        let ghost done = rels@.take(i as int).filter(p);
        match check_relationship(table.as_slice(), source_kind, target_kind, rel.kind) {
            Ok(()) => {
                assert(!p(rels@[i as int]));
            },
            Err(err) => {
                errors.push(err);
                assert(p(rels@[i as int]));
                assert(rels@.take(i + 1).filter(p) == done.push(rels@[i as int]));
                assert forall|j: int| 0 <= j < errors@.len() implies reports(
                    #[trigger] errors@[j],
                    model.spec_elements()[done.push(rels@[i as int])[j].source.0 as int].kind,
                    model.spec_elements()[done.push(rels@[i as int])[j].target.0 as int].kind,
                    done.push(rels@[i as int])[j].kind,
                ) by {
                    if j < before.len() {
                        assert(errors@[j] == before[j]);
                    }
                }
            },
        }
        i += 1;
    }
    assert(rels@.take(rels@.len() as int) == rels@);
    ValidationResult { success: errors.len() == 0, errors }
}

/// Validation succeeds exactly when every relationship of the model is allowed.
pub proof fn lemma_success_iff_all_derivable(m: Model)
    ensures
        (invalid_relations(m).len() == 0) <==> (forall|i: int|
            0 <= i < m.spec_relations().len() ==> relation_derivable(m, #[trigger] m.spec_relations()[i])),
{
    let p = not_derivable_in(m);
    broadcast use vstd::seq_lib::group_seq_properties;
    if invalid_relations(m).len() == 0 {
        assert forall|i: int| 0 <= i < m.spec_relations().len() implies relation_derivable(m, #[trigger] m.spec_relations()[i]) by {
            if !relation_derivable(m, m.spec_relations()[i]) {
                m.spec_relations().lemma_filter_contains(p, i);
            }
        }
    } else {
        let r = invalid_relations(m)[0];
        m.spec_relations().lemma_filter_pred(p, 0);
        m.spec_relations().lemma_filter_contains_rev(p, r);
    }
}

/// Association and influence are valid between elements of any two layers.
pub proof fn lemma_association_and_influence_any_layer(source: ElementKind, target: ElementKind)
    ensures
        kinds_derivable(source, target, RelationKind::Association),
        kinds_derivable(source, target, RelationKind::Influence),
{
}

/// Composition, aggregation, assignment, triggering, flow and specialization
/// are valid exactly between elements of the same layer.
pub proof fn lemma_same_layer_relations(source: ElementKind, target: ElementKind, kind: RelationKind)
    requires
        kind == RelationKind::Composition || kind == RelationKind::Aggregation
            || kind == RelationKind::Assignment || kind == RelationKind::Triggering
            || kind == RelationKind::Flow || kind == RelationKind::Specialization,
    ensures
        kinds_derivable(source, target, kind) <==> source.spec_layer() == target.spec_layer(),
{
}

/// Realization is valid between any two elements of the same layer.
pub proof fn lemma_realization_within_layer(source: ElementKind, target: ElementKind)
    requires
        source.spec_layer() == target.spec_layer(),
    ensures
        kinds_derivable(source, target, RelationKind::Realization),
{
}

/// The position of a layer in the descending serving chain
/// physical, technology, application, business, strategy; `-1` off the chain.
pub open spec fn serving_rank(l: ElementLayer) -> int {
    match l {
        ElementLayer::Physical => 4,
        ElementLayer::Technology => 3,
        ElementLayer::Application => 2,
        ElementLayer::Business => 1,
        ElementLayer::Strategy => 0,
        _ => -1,
    }
}

/// Serving descends the layer chain: a valid serving relationship goes from
/// a layer of the chain to a lower one, never within a layer or upwards;
/// technology serves application, application serves business, business
/// serves strategy.
pub proof fn lemma_serving_descends(source: ElementKind, target: ElementKind)
    ensures
        kinds_derivable(source, target, RelationKind::Serving) ==> {
            &&& serving_rank(target.spec_layer()) >= 0
            &&& serving_rank(source.spec_layer()) > serving_rank(target.spec_layer())
        },
        source.spec_layer() == ElementLayer::Technology && target.spec_layer() == ElementLayer::Application
            ==> kinds_derivable(source, target, RelationKind::Serving),
        source.spec_layer() == ElementLayer::Application && target.spec_layer() == ElementLayer::Business
            ==> kinds_derivable(source, target, RelationKind::Serving),
        source.spec_layer() == ElementLayer::Business && target.spec_layer() == ElementLayer::Strategy
            ==> kinds_derivable(source, target, RelationKind::Serving),
{
}

/// Access is valid exactly between the application layer and the
/// technology, business or application layer, in either direction.
pub proof fn lemma_access_around_application(source: ElementKind, target: ElementKind)
    ensures
        kinds_derivable(source, target, RelationKind::Access) <==> {
            ||| source.spec_layer() == ElementLayer::Application && (target.spec_layer() == ElementLayer::Technology
                || target.spec_layer() == ElementLayer::Business || target.spec_layer() == ElementLayer::Application)
            ||| target.spec_layer() == ElementLayer::Application && (source.spec_layer() == ElementLayer::Technology
                || source.spec_layer() == ElementLayer::Business)
        },
{
}

/// From a motivation element to an element of the business, application or
/// technology layer, association is the one valid relationship other than
/// influence.
pub proof fn lemma_motivation_to_core(source: ElementKind, target: ElementKind, kind: RelationKind)
    requires
        source.spec_layer() == ElementLayer::Motivation,
        target.spec_layer() == ElementLayer::Business || target.spec_layer() == ElementLayer::Application
            || target.spec_layer() == ElementLayer::Technology,
        kind != RelationKind::Influence,
    ensures
        kinds_derivable(source, target, kind) <==> kind == RelationKind::Association,
{
}

/// Realization: always valid within one layer; across layers it is valid
/// exactly from the implementation layer to the strategy, business,
/// application, technology and physical layers, from technology to
/// application and to business, and from application to business.
pub proof fn lemma_realization_rules(source: ElementKind, target: ElementKind)
    ensures
        kinds_derivable(source, target, RelationKind::Realization) <==> {
            let s = source.spec_layer();
            let t = target.spec_layer();
            ||| s == t
            ||| s == ElementLayer::Implementation && (t == ElementLayer::Strategy || t == ElementLayer::Business
                || t == ElementLayer::Application || t == ElementLayer::Technology || t == ElementLayer::Physical)
            ||| s == ElementLayer::Technology && t == ElementLayer::Application
            ||| s == ElementLayer::Technology && t == ElementLayer::Business
            ||| s == ElementLayer::Application && t == ElementLayer::Business
        },
        source.spec_layer() == ElementLayer::Technology && target.spec_layer() == ElementLayer::Application
            ==> kinds_derivable(source, target, RelationKind::Realization),
        source.spec_layer() == ElementLayer::Technology && target.spec_layer() == ElementLayer::Business
            ==> kinds_derivable(source, target, RelationKind::Realization),
        source.spec_layer() == ElementLayer::Application && target.spec_layer() == ElementLayer::Business
            ==> kinds_derivable(source, target, RelationKind::Realization),
        kinds_derivable(ElementKind::Artifact, ElementKind::ApplicationComponent, RelationKind::Realization),
{
}

/// The matrix holds the upward realization rows: technology to application
/// and to business, application to business.
pub proof fn lemma_matrix_has_upward_realization()
    ensures
        allowed_table().contains((ElementLayer::Technology, RelationKind::Realization, ElementLayer::Application)),
        allowed_table().contains((ElementLayer::Technology, RelationKind::Realization, ElementLayer::Business)),
        allowed_table().contains((ElementLayer::Application, RelationKind::Realization, ElementLayer::Business)),
{
    lemma_table_matches_rules(ElementLayer::Technology, RelationKind::Realization, ElementLayer::Application);
    lemma_table_matches_rules(ElementLayer::Technology, RelationKind::Realization, ElementLayer::Business);
    lemma_table_matches_rules(ElementLayer::Application, RelationKind::Realization, ElementLayer::Business);
}

} // verus!
