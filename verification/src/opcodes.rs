//! The enumerated instruction operands and their keyword tables.
//!
//! Each enumerated operand decodes from one literal keyword out of an
//! exhaustive per-type table; one generic pattern (a keyword spec table, a
//! parse spec function, and a decoder proven against both) serves every
//! type, and an exhaustiveness law per type proves that every variant has a
//! table entry that parses back to it.

use vstd::prelude::*;

use crate::assemble::err_at;
use crate::assemble::err_end;
use crate::assemble::err_ident;
use crate::assemble::spec_token_pos;
use crate::assemble::token_den;
use crate::assemble::ParseError;
use crate::assemble::ParseErrorKind;
use crate::assemble::Token;
use crate::assemble::TokenCursor;
use crate::interner::bytes_eq;
use crate::unit::FatalOp;

verus! {

/// The keyword that names each fatal operation kind.
pub open spec fn spec_fatal_op_keyword(v: FatalOp) -> Seq<u8> {
    match v {
        FatalOp::Parse => seq![0x50u8, 0x61u8, 0x72u8, 0x73u8, 0x65u8],
        FatalOp::Runtime => seq![0x52u8, 0x75u8, 0x6Eu8, 0x74u8, 0x69u8, 0x6Du8, 0x65u8],
        FatalOp::RuntimeOmitFrame => seq![
            0x52u8, 0x75u8, 0x6Eu8, 0x74u8, 0x69u8, 0x6Du8, 0x65u8, 0x4Fu8, 0x6Du8, 0x69u8,
            0x74u8, 0x46u8, 0x72u8, 0x61u8, 0x6Du8, 0x65u8,
        ],
    }
}

/// The fatal operation kind a keyword names, if any.
pub open spec fn spec_parse_fatal_op(b: Seq<u8>) -> Option<FatalOp> {
    if b == seq![0x50u8, 0x61u8, 0x72u8, 0x73u8, 0x65u8] {
        Some(FatalOp::Parse)
    } else if b == seq![0x52u8, 0x75u8, 0x6Eu8, 0x74u8, 0x69u8, 0x6Du8, 0x65u8] {
        Some(FatalOp::Runtime)
    } else if b == seq![
        0x52u8, 0x75u8, 0x6Eu8, 0x74u8, 0x69u8, 0x6Du8, 0x65u8, 0x4Fu8, 0x6Du8, 0x69u8, 0x74u8,
        0x46u8, 0x72u8, 0x61u8, 0x6Du8, 0x65u8,
    ] {
        Some(FatalOp::RuntimeOmitFrame)
    } else {
        Option::None
    }
}

/// Law: every fatal operation kind's keyword parses back to that kind.
pub proof fn lemma_fatal_op_exhaustive(v: FatalOp)
    ensures
        spec_parse_fatal_op(spec_fatal_op_keyword(v)) == Some(v),
{
    match v {
        FatalOp::Parse => {},
        FatalOp::Runtime => {
            assert(seq![0x52u8, 0x75u8, 0x6Eu8, 0x74u8, 0x69u8, 0x6Du8, 0x65u8] != seq![
                0x50u8, 0x61u8, 0x72u8, 0x73u8, 0x65u8,
            ]) by {
                assert(seq![0x52u8, 0x75u8, 0x6Eu8, 0x74u8, 0x69u8, 0x6Du8, 0x65u8].len() != seq![
                    0x50u8, 0x61u8, 0x72u8, 0x73u8, 0x65u8,
                ].len());
            }
        },
        FatalOp::RuntimeOmitFrame => {
            assert(spec_fatal_op_keyword(v).len() == 16);
        },
    }
}

/// Decode one fatal operation keyword.
pub fn assemble_fatal_op_kw(c: &mut TokenCursor) -> (r: Result<FatalOp, ParseError>)
    requires
        old(c).wf(),
    ensures
        final(c).wf(),
        final(c).toks() == old(c).toks(),
        (r is Ok) <==> (old(c).at() < old(c).toks().len() && (match old(c).toks()[old(c).at()] {
            Token::Identifier(b, _) => spec_parse_fatal_op(b@) is Some,
            _ => false,
        })),
        r matches Ok(v) ==> final(c).at() == old(c).at() + 1 && (match old(c).toks()[old(
            c,
        ).at()] {
            Token::Identifier(b, _) => spec_parse_fatal_op(b@) == Some(v),
            _ => false,
        }),
        r matches Err(e) ==> (match e.tok {
            Some(t2) => old(c).at() < old(c).toks().len() && token_den(t2) == token_den(
                old(c).toks()[old(c).at()],
            ) && e.pos == spec_token_pos(old(c).toks()[old(c).at()]),
            Option::None => old(c).at() >= old(c).toks().len() && e.kind
                == ParseErrorKind::UnexpectedEnd,
        }),
{
    let pos = c.here();
    match c.next() {
        Some(Token::Identifier(b, p)) => {
            let p = *p;
            let k_parse: [u8; 5] = [0x50, 0x61, 0x72, 0x73, 0x65];
            if bytes_eq(b.as_slice(), k_parse.as_slice()) {
                proof {
                    assert(b@ =~= seq![0x50u8, 0x61u8, 0x72u8, 0x73u8, 0x65u8]);
                }
                return Ok(FatalOp::Parse);
            }
            let k_runtime: [u8; 7] = [0x52, 0x75, 0x6E, 0x74, 0x69, 0x6D, 0x65];
            if bytes_eq(b.as_slice(), k_runtime.as_slice()) {
                proof {
                    assert(b@ =~= seq![0x52u8, 0x75u8, 0x6Eu8, 0x74u8, 0x69u8, 0x6Du8, 0x65u8]);
                }
                return Ok(FatalOp::Runtime);
            }
            let k_omit: [u8; 16] = [
                0x52, 0x75, 0x6E, 0x74, 0x69, 0x6D, 0x65, 0x4F, 0x6D, 0x69, 0x74, 0x46, 0x72,
                0x61, 0x6D, 0x65,
            ];
            if bytes_eq(b.as_slice(), k_omit.as_slice()) {
                proof {
                    assert(b@ =~= seq![
                        0x52u8, 0x75u8, 0x6Eu8, 0x74u8, 0x69u8, 0x6Du8, 0x65u8, 0x4Fu8, 0x6Du8,
                        0x69u8, 0x74u8, 0x46u8, 0x72u8, 0x61u8, 0x6Du8, 0x65u8,
                    ]);
                }
                return Ok(FatalOp::RuntimeOmitFrame);
            }
            Err(err_ident(ParseErrorKind::UnknownKeyword, b, p))
        },
        Some(t) => Err(err_at(ParseErrorKind::UnexpectedToken, t)),
        Option::None => Err(err_end(pos)),
    }
}

#[derive(Copy, Clone, Debug, PartialEq, Eq, Structural)]
pub enum BareThisOp {
    NeverNull,
    NoNotice,
    Notice,
}

/// The keyword that names each variant; the match is exhaustive, so
/// every variant has a table entry.
pub open spec fn spec_bare_this_op_keyword(v: BareThisOp) -> Seq<u8> {
    match v {
        BareThisOp::NeverNull => seq![0x4Eu8, 0x65u8, 0x76u8, 0x65u8, 0x72u8, 0x4Eu8, 0x75u8, 0x6Cu8, 0x6Cu8],
        BareThisOp::NoNotice => seq![0x4Eu8, 0x6Fu8, 0x4Eu8, 0x6Fu8, 0x74u8, 0x69u8, 0x63u8, 0x65u8],
        BareThisOp::Notice => seq![0x4Eu8, 0x6Fu8, 0x74u8, 0x69u8, 0x63u8, 0x65u8],
    }
}

/// The variant a keyword names, if any.
pub open spec fn spec_parse_bare_this_op(b: Seq<u8>) -> Option<BareThisOp> {
    if b == seq![0x4Eu8, 0x65u8, 0x76u8, 0x65u8, 0x72u8, 0x4Eu8, 0x75u8, 0x6Cu8, 0x6Cu8] {
        Some(BareThisOp::NeverNull)
    } else if b == seq![0x4Eu8, 0x6Fu8, 0x4Eu8, 0x6Fu8, 0x74u8, 0x69u8, 0x63u8, 0x65u8] {
        Some(BareThisOp::NoNotice)
    } else if b == seq![0x4Eu8, 0x6Fu8, 0x74u8, 0x69u8, 0x63u8, 0x65u8] {
        Some(BareThisOp::Notice)
    } else {
        Option::None
    }
}

/// Law: every variant's keyword parses back to that variant, so the
/// table is exhaustive and unambiguous.
pub proof fn lemma_bare_this_op_exhaustive(v: BareThisOp)
    ensures
        spec_parse_bare_this_op(spec_bare_this_op_keyword(v)) == Some(v),
{
    match v {
        BareThisOp::NeverNull => {
            assert(spec_parse_bare_this_op(seq![0x4Eu8, 0x65u8, 0x76u8, 0x65u8, 0x72u8, 0x4Eu8, 0x75u8, 0x6Cu8, 0x6Cu8]) == Some(BareThisOp::NeverNull));
        },
        BareThisOp::NoNotice => {
            assert(seq![0x4Eu8, 0x6Fu8, 0x4Eu8, 0x6Fu8, 0x74u8, 0x69u8, 0x63u8, 0x65u8] != seq![0x4Eu8, 0x65u8, 0x76u8, 0x65u8, 0x72u8, 0x4Eu8, 0x75u8, 0x6Cu8, 0x6Cu8]) by {
                assert(seq![0x4Eu8, 0x6Fu8, 0x4Eu8, 0x6Fu8, 0x74u8, 0x69u8, 0x63u8, 0x65u8].len() != seq![0x4Eu8, 0x65u8, 0x76u8, 0x65u8, 0x72u8, 0x4Eu8, 0x75u8, 0x6Cu8, 0x6Cu8].len());
            }
            assert(spec_parse_bare_this_op(seq![0x4Eu8, 0x6Fu8, 0x4Eu8, 0x6Fu8, 0x74u8, 0x69u8, 0x63u8, 0x65u8]) == Some(BareThisOp::NoNotice));
        },
        BareThisOp::Notice => {
            assert(seq![0x4Eu8, 0x6Fu8, 0x74u8, 0x69u8, 0x63u8, 0x65u8] != seq![0x4Eu8, 0x65u8, 0x76u8, 0x65u8, 0x72u8, 0x4Eu8, 0x75u8, 0x6Cu8, 0x6Cu8]) by {
                assert(seq![0x4Eu8, 0x6Fu8, 0x74u8, 0x69u8, 0x63u8, 0x65u8].len() != seq![0x4Eu8, 0x65u8, 0x76u8, 0x65u8, 0x72u8, 0x4Eu8, 0x75u8, 0x6Cu8, 0x6Cu8].len());
            }
            assert(seq![0x4Eu8, 0x6Fu8, 0x74u8, 0x69u8, 0x63u8, 0x65u8] != seq![0x4Eu8, 0x6Fu8, 0x4Eu8, 0x6Fu8, 0x74u8, 0x69u8, 0x63u8, 0x65u8]) by {
                assert(seq![0x4Eu8, 0x6Fu8, 0x74u8, 0x69u8, 0x63u8, 0x65u8].len() != seq![0x4Eu8, 0x6Fu8, 0x4Eu8, 0x6Fu8, 0x74u8, 0x69u8, 0x63u8, 0x65u8].len());
            }
            assert(spec_parse_bare_this_op(seq![0x4Eu8, 0x6Fu8, 0x74u8, 0x69u8, 0x63u8, 0x65u8]) == Some(BareThisOp::Notice));
        },
    }
}

/// Decode one `BareThisOp` keyword.
pub fn assemble_bare_this_op(c: &mut TokenCursor) -> (r: Result<BareThisOp, ParseError>)
    requires
        old(c).wf(),
    ensures
        final(c).wf(),
        final(c).toks() == old(c).toks(),
        (r is Ok) <==> (old(c).at() < old(c).toks().len() && (match old(c).toks()[old(c).at()] {
            Token::Identifier(b, _) => spec_parse_bare_this_op(b@) is Some,
            _ => false,
        })),
        r matches Ok(v) ==> final(c).at() == old(c).at() + 1 && (match old(c).toks()[old(c).at()] {
            Token::Identifier(b, _) => spec_parse_bare_this_op(b@) == Some(v),
            _ => false,
        }),
        r matches Err(e) ==> (match e.tok {
            Some(t2) => old(c).at() < old(c).toks().len() && token_den(t2) == token_den(
                old(c).toks()[old(c).at()],
            ) && e.pos == spec_token_pos(old(c).toks()[old(c).at()]),
            Option::None => old(c).at() >= old(c).toks().len() && e.kind
                == ParseErrorKind::UnexpectedEnd,
        }),
{
    let pos = c.here();
    match c.next() {
        Some(Token::Identifier(b, p)) => {
            let p = *p;
            let k_nevernull: [u8; 9] = [0x4E, 0x65, 0x76, 0x65, 0x72, 0x4E, 0x75, 0x6C, 0x6C];
            if bytes_eq(b.as_slice(), k_nevernull.as_slice()) {
                proof {
                    assert(b@ =~= seq![0x4Eu8, 0x65u8, 0x76u8, 0x65u8, 0x72u8, 0x4Eu8, 0x75u8, 0x6Cu8, 0x6Cu8]);
                }
                return Ok(BareThisOp::NeverNull);
            }
            let k_nonotice: [u8; 8] = [0x4E, 0x6F, 0x4E, 0x6F, 0x74, 0x69, 0x63, 0x65];
            if bytes_eq(b.as_slice(), k_nonotice.as_slice()) {
                proof {
                    assert(b@ =~= seq![0x4Eu8, 0x6Fu8, 0x4Eu8, 0x6Fu8, 0x74u8, 0x69u8, 0x63u8, 0x65u8]);
                }
                return Ok(BareThisOp::NoNotice);
            }
            let k_notice: [u8; 6] = [0x4E, 0x6F, 0x74, 0x69, 0x63, 0x65];
            if bytes_eq(b.as_slice(), k_notice.as_slice()) {
                proof {
                    assert(b@ =~= seq![0x4Eu8, 0x6Fu8, 0x74u8, 0x69u8, 0x63u8, 0x65u8]);
                }
                return Ok(BareThisOp::Notice);
            }
            Err(err_ident(ParseErrorKind::UnknownKeyword, b, p))
        },
        Some(t) => Err(err_at(ParseErrorKind::UnexpectedToken, t)),
        Option::None => Err(err_end(pos)),
    }
}

#[derive(Copy, Clone, Debug, PartialEq, Eq, Structural)]
pub enum ClassGetCMode {
    Normal,
    ExplicitConversion,
}

/// The keyword that names each variant; the match is exhaustive, so
/// every variant has a table entry.
pub open spec fn spec_class_get_c_mode_keyword(v: ClassGetCMode) -> Seq<u8> {
    match v {
        ClassGetCMode::Normal => seq![0x4Eu8, 0x6Fu8, 0x72u8, 0x6Du8, 0x61u8, 0x6Cu8],
        ClassGetCMode::ExplicitConversion => seq![0x45u8, 0x78u8, 0x70u8, 0x6Cu8, 0x69u8, 0x63u8, 0x69u8, 0x74u8, 0x43u8, 0x6Fu8, 0x6Eu8, 0x76u8, 0x65u8, 0x72u8, 0x73u8, 0x69u8, 0x6Fu8, 0x6Eu8],
    }
}

/// The variant a keyword names, if any.
pub open spec fn spec_parse_class_get_c_mode(b: Seq<u8>) -> Option<ClassGetCMode> {
    if b == seq![0x4Eu8, 0x6Fu8, 0x72u8, 0x6Du8, 0x61u8, 0x6Cu8] {
        Some(ClassGetCMode::Normal)
    } else if b == seq![0x45u8, 0x78u8, 0x70u8, 0x6Cu8, 0x69u8, 0x63u8, 0x69u8, 0x74u8, 0x43u8, 0x6Fu8, 0x6Eu8, 0x76u8, 0x65u8, 0x72u8, 0x73u8, 0x69u8, 0x6Fu8, 0x6Eu8] {
        Some(ClassGetCMode::ExplicitConversion)
    } else {
        Option::None
    }
}

/// Law: every variant's keyword parses back to that variant, so the
/// table is exhaustive and unambiguous.
pub proof fn lemma_class_get_c_mode_exhaustive(v: ClassGetCMode)
    ensures
        spec_parse_class_get_c_mode(spec_class_get_c_mode_keyword(v)) == Some(v),
{
    match v {
        ClassGetCMode::Normal => {
            assert(spec_parse_class_get_c_mode(seq![0x4Eu8, 0x6Fu8, 0x72u8, 0x6Du8, 0x61u8, 0x6Cu8]) == Some(ClassGetCMode::Normal));
        },
        ClassGetCMode::ExplicitConversion => {
            assert(seq![0x45u8, 0x78u8, 0x70u8, 0x6Cu8, 0x69u8, 0x63u8, 0x69u8, 0x74u8, 0x43u8, 0x6Fu8, 0x6Eu8, 0x76u8, 0x65u8, 0x72u8, 0x73u8, 0x69u8, 0x6Fu8, 0x6Eu8] != seq![0x4Eu8, 0x6Fu8, 0x72u8, 0x6Du8, 0x61u8, 0x6Cu8]) by {
                assert(seq![0x45u8, 0x78u8, 0x70u8, 0x6Cu8, 0x69u8, 0x63u8, 0x69u8, 0x74u8, 0x43u8, 0x6Fu8, 0x6Eu8, 0x76u8, 0x65u8, 0x72u8, 0x73u8, 0x69u8, 0x6Fu8, 0x6Eu8].len() != seq![0x4Eu8, 0x6Fu8, 0x72u8, 0x6Du8, 0x61u8, 0x6Cu8].len());
            }
            assert(spec_parse_class_get_c_mode(seq![0x45u8, 0x78u8, 0x70u8, 0x6Cu8, 0x69u8, 0x63u8, 0x69u8, 0x74u8, 0x43u8, 0x6Fu8, 0x6Eu8, 0x76u8, 0x65u8, 0x72u8, 0x73u8, 0x69u8, 0x6Fu8, 0x6Eu8]) == Some(ClassGetCMode::ExplicitConversion));
        },
    }
}

/// Decode one `ClassGetCMode` keyword.
pub fn assemble_class_get_c_mode(c: &mut TokenCursor) -> (r: Result<ClassGetCMode, ParseError>)
    requires
        old(c).wf(),
    ensures
        final(c).wf(),
        final(c).toks() == old(c).toks(),
        (r is Ok) <==> (old(c).at() < old(c).toks().len() && (match old(c).toks()[old(c).at()] {
            Token::Identifier(b, _) => spec_parse_class_get_c_mode(b@) is Some,
            _ => false,
        })),
        r matches Ok(v) ==> final(c).at() == old(c).at() + 1 && (match old(c).toks()[old(c).at()] {
            Token::Identifier(b, _) => spec_parse_class_get_c_mode(b@) == Some(v),
            _ => false,
        }),
        r matches Err(e) ==> (match e.tok {
            Some(t2) => old(c).at() < old(c).toks().len() && token_den(t2) == token_den(
                old(c).toks()[old(c).at()],
            ) && e.pos == spec_token_pos(old(c).toks()[old(c).at()]),
            Option::None => old(c).at() >= old(c).toks().len() && e.kind
                == ParseErrorKind::UnexpectedEnd,
        }),
{
    let pos = c.here();
    match c.next() {
        Some(Token::Identifier(b, p)) => {
            let p = *p;
            let k_normal: [u8; 6] = [0x4E, 0x6F, 0x72, 0x6D, 0x61, 0x6C];
            if bytes_eq(b.as_slice(), k_normal.as_slice()) {
                proof {
                    assert(b@ =~= seq![0x4Eu8, 0x6Fu8, 0x72u8, 0x6Du8, 0x61u8, 0x6Cu8]);
                }
                return Ok(ClassGetCMode::Normal);
            }
            let k_explicitconversion: [u8; 18] = [0x45, 0x78, 0x70, 0x6C, 0x69, 0x63, 0x69, 0x74, 0x43, 0x6F, 0x6E, 0x76, 0x65, 0x72, 0x73, 0x69, 0x6F, 0x6E];
            if bytes_eq(b.as_slice(), k_explicitconversion.as_slice()) {
                proof {
                    assert(b@ =~= seq![0x45u8, 0x78u8, 0x70u8, 0x6Cu8, 0x69u8, 0x63u8, 0x69u8, 0x74u8, 0x43u8, 0x6Fu8, 0x6Eu8, 0x76u8, 0x65u8, 0x72u8, 0x73u8, 0x69u8, 0x6Fu8, 0x6Eu8]);
                }
                return Ok(ClassGetCMode::ExplicitConversion);
            }
            Err(err_ident(ParseErrorKind::UnknownKeyword, b, p))
        },
        Some(t) => Err(err_at(ParseErrorKind::UnexpectedToken, t)),
        Option::None => Err(err_end(pos)),
    }
}

#[derive(Copy, Clone, Debug, PartialEq, Eq, Structural)]
pub enum CollectionType {
    ImmMap,
    ImmSet,
    ImmVector,
    CollMap,
    Pair,
    CollSet,
    Vector,
}

/// The keyword that names each variant; the match is exhaustive, so
/// every variant has a table entry.
pub open spec fn spec_collection_type_keyword(v: CollectionType) -> Seq<u8> {
    match v {
        CollectionType::ImmMap => seq![0x49u8, 0x6Du8, 0x6Du8, 0x4Du8, 0x61u8, 0x70u8],
        CollectionType::ImmSet => seq![0x49u8, 0x6Du8, 0x6Du8, 0x53u8, 0x65u8, 0x74u8],
        CollectionType::ImmVector => seq![0x49u8, 0x6Du8, 0x6Du8, 0x56u8, 0x65u8, 0x63u8, 0x74u8, 0x6Fu8, 0x72u8],
        CollectionType::CollMap => seq![0x4Du8, 0x61u8, 0x70u8],
        CollectionType::Pair => seq![0x50u8, 0x61u8, 0x69u8, 0x72u8],
        CollectionType::CollSet => seq![0x53u8, 0x65u8, 0x74u8],
        CollectionType::Vector => seq![0x56u8, 0x65u8, 0x63u8, 0x74u8, 0x6Fu8, 0x72u8],
    }
}

/// The variant a keyword names, if any.
pub open spec fn spec_parse_collection_type(b: Seq<u8>) -> Option<CollectionType> {
    if b == seq![0x49u8, 0x6Du8, 0x6Du8, 0x4Du8, 0x61u8, 0x70u8] {
        Some(CollectionType::ImmMap)
    } else if b == seq![0x49u8, 0x6Du8, 0x6Du8, 0x53u8, 0x65u8, 0x74u8] {
        Some(CollectionType::ImmSet)
    } else if b == seq![0x49u8, 0x6Du8, 0x6Du8, 0x56u8, 0x65u8, 0x63u8, 0x74u8, 0x6Fu8, 0x72u8] {
        Some(CollectionType::ImmVector)
    } else if b == seq![0x4Du8, 0x61u8, 0x70u8] {
        Some(CollectionType::CollMap)
    } else if b == seq![0x50u8, 0x61u8, 0x69u8, 0x72u8] {
        Some(CollectionType::Pair)
    } else if b == seq![0x53u8, 0x65u8, 0x74u8] {
        Some(CollectionType::CollSet)
    } else if b == seq![0x56u8, 0x65u8, 0x63u8, 0x74u8, 0x6Fu8, 0x72u8] {
        Some(CollectionType::Vector)
    } else {
        Option::None
    }
}

/// Law: every variant's keyword parses back to that variant, so the
/// table is exhaustive and unambiguous.
pub proof fn lemma_collection_type_exhaustive(v: CollectionType)
    ensures
        spec_parse_collection_type(spec_collection_type_keyword(v)) == Some(v),
{
    match v {
        CollectionType::ImmMap => {
            assert(spec_parse_collection_type(seq![0x49u8, 0x6Du8, 0x6Du8, 0x4Du8, 0x61u8, 0x70u8]) == Some(CollectionType::ImmMap));
        },
        CollectionType::ImmSet => {
            assert(seq![0x49u8, 0x6Du8, 0x6Du8, 0x53u8, 0x65u8, 0x74u8] != seq![0x49u8, 0x6Du8, 0x6Du8, 0x4Du8, 0x61u8, 0x70u8]) by {
                assert(seq![0x49u8, 0x6Du8, 0x6Du8, 0x53u8, 0x65u8, 0x74u8][3] != seq![0x49u8, 0x6Du8, 0x6Du8, 0x4Du8, 0x61u8, 0x70u8][3]);
            }
            assert(spec_parse_collection_type(seq![0x49u8, 0x6Du8, 0x6Du8, 0x53u8, 0x65u8, 0x74u8]) == Some(CollectionType::ImmSet));
        },
        CollectionType::ImmVector => {
            assert(seq![0x49u8, 0x6Du8, 0x6Du8, 0x56u8, 0x65u8, 0x63u8, 0x74u8, 0x6Fu8, 0x72u8] != seq![0x49u8, 0x6Du8, 0x6Du8, 0x4Du8, 0x61u8, 0x70u8]) by {
                assert(seq![0x49u8, 0x6Du8, 0x6Du8, 0x56u8, 0x65u8, 0x63u8, 0x74u8, 0x6Fu8, 0x72u8].len() != seq![0x49u8, 0x6Du8, 0x6Du8, 0x4Du8, 0x61u8, 0x70u8].len());
            }
            assert(seq![0x49u8, 0x6Du8, 0x6Du8, 0x56u8, 0x65u8, 0x63u8, 0x74u8, 0x6Fu8, 0x72u8] != seq![0x49u8, 0x6Du8, 0x6Du8, 0x53u8, 0x65u8, 0x74u8]) by {
                assert(seq![0x49u8, 0x6Du8, 0x6Du8, 0x56u8, 0x65u8, 0x63u8, 0x74u8, 0x6Fu8, 0x72u8].len() != seq![0x49u8, 0x6Du8, 0x6Du8, 0x53u8, 0x65u8, 0x74u8].len());
            }
            assert(spec_parse_collection_type(seq![0x49u8, 0x6Du8, 0x6Du8, 0x56u8, 0x65u8, 0x63u8, 0x74u8, 0x6Fu8, 0x72u8]) == Some(CollectionType::ImmVector));
        },
        CollectionType::CollMap => {
            assert(seq![0x4Du8, 0x61u8, 0x70u8] != seq![0x49u8, 0x6Du8, 0x6Du8, 0x4Du8, 0x61u8, 0x70u8]) by {
                assert(seq![0x4Du8, 0x61u8, 0x70u8].len() != seq![0x49u8, 0x6Du8, 0x6Du8, 0x4Du8, 0x61u8, 0x70u8].len());
            }
            assert(seq![0x4Du8, 0x61u8, 0x70u8] != seq![0x49u8, 0x6Du8, 0x6Du8, 0x53u8, 0x65u8, 0x74u8]) by {
                assert(seq![0x4Du8, 0x61u8, 0x70u8].len() != seq![0x49u8, 0x6Du8, 0x6Du8, 0x53u8, 0x65u8, 0x74u8].len());
            }
            assert(seq![0x4Du8, 0x61u8, 0x70u8] != seq![0x49u8, 0x6Du8, 0x6Du8, 0x56u8, 0x65u8, 0x63u8, 0x74u8, 0x6Fu8, 0x72u8]) by {
                assert(seq![0x4Du8, 0x61u8, 0x70u8].len() != seq![0x49u8, 0x6Du8, 0x6Du8, 0x56u8, 0x65u8, 0x63u8, 0x74u8, 0x6Fu8, 0x72u8].len());
            }
            assert(spec_parse_collection_type(seq![0x4Du8, 0x61u8, 0x70u8]) == Some(CollectionType::CollMap));
        },
        CollectionType::Pair => {
            assert(seq![0x50u8, 0x61u8, 0x69u8, 0x72u8] != seq![0x49u8, 0x6Du8, 0x6Du8, 0x4Du8, 0x61u8, 0x70u8]) by {
                assert(seq![0x50u8, 0x61u8, 0x69u8, 0x72u8].len() != seq![0x49u8, 0x6Du8, 0x6Du8, 0x4Du8, 0x61u8, 0x70u8].len());
            }
            assert(seq![0x50u8, 0x61u8, 0x69u8, 0x72u8] != seq![0x49u8, 0x6Du8, 0x6Du8, 0x53u8, 0x65u8, 0x74u8]) by {
                assert(seq![0x50u8, 0x61u8, 0x69u8, 0x72u8].len() != seq![0x49u8, 0x6Du8, 0x6Du8, 0x53u8, 0x65u8, 0x74u8].len());
            }
            assert(seq![0x50u8, 0x61u8, 0x69u8, 0x72u8] != seq![0x49u8, 0x6Du8, 0x6Du8, 0x56u8, 0x65u8, 0x63u8, 0x74u8, 0x6Fu8, 0x72u8]) by {
                assert(seq![0x50u8, 0x61u8, 0x69u8, 0x72u8].len() != seq![0x49u8, 0x6Du8, 0x6Du8, 0x56u8, 0x65u8, 0x63u8, 0x74u8, 0x6Fu8, 0x72u8].len());
            }
            assert(seq![0x50u8, 0x61u8, 0x69u8, 0x72u8] != seq![0x4Du8, 0x61u8, 0x70u8]) by {
                assert(seq![0x50u8, 0x61u8, 0x69u8, 0x72u8].len() != seq![0x4Du8, 0x61u8, 0x70u8].len());
            }
            assert(spec_parse_collection_type(seq![0x50u8, 0x61u8, 0x69u8, 0x72u8]) == Some(CollectionType::Pair));
        },
        CollectionType::CollSet => {
            assert(seq![0x53u8, 0x65u8, 0x74u8] != seq![0x49u8, 0x6Du8, 0x6Du8, 0x4Du8, 0x61u8, 0x70u8]) by {
                assert(seq![0x53u8, 0x65u8, 0x74u8].len() != seq![0x49u8, 0x6Du8, 0x6Du8, 0x4Du8, 0x61u8, 0x70u8].len());
            }
            assert(seq![0x53u8, 0x65u8, 0x74u8] != seq![0x49u8, 0x6Du8, 0x6Du8, 0x53u8, 0x65u8, 0x74u8]) by {
                assert(seq![0x53u8, 0x65u8, 0x74u8].len() != seq![0x49u8, 0x6Du8, 0x6Du8, 0x53u8, 0x65u8, 0x74u8].len());
            }
            assert(seq![0x53u8, 0x65u8, 0x74u8] != seq![0x49u8, 0x6Du8, 0x6Du8, 0x56u8, 0x65u8, 0x63u8, 0x74u8, 0x6Fu8, 0x72u8]) by {
                assert(seq![0x53u8, 0x65u8, 0x74u8].len() != seq![0x49u8, 0x6Du8, 0x6Du8, 0x56u8, 0x65u8, 0x63u8, 0x74u8, 0x6Fu8, 0x72u8].len());
            }
            assert(seq![0x53u8, 0x65u8, 0x74u8] != seq![0x4Du8, 0x61u8, 0x70u8]) by {
                assert(seq![0x53u8, 0x65u8, 0x74u8][0] != seq![0x4Du8, 0x61u8, 0x70u8][0]);
            }
            assert(seq![0x53u8, 0x65u8, 0x74u8] != seq![0x50u8, 0x61u8, 0x69u8, 0x72u8]) by {
                assert(seq![0x53u8, 0x65u8, 0x74u8].len() != seq![0x50u8, 0x61u8, 0x69u8, 0x72u8].len());
            }
            assert(spec_parse_collection_type(seq![0x53u8, 0x65u8, 0x74u8]) == Some(CollectionType::CollSet));
        },
        CollectionType::Vector => {
            assert(seq![0x56u8, 0x65u8, 0x63u8, 0x74u8, 0x6Fu8, 0x72u8] != seq![0x49u8, 0x6Du8, 0x6Du8, 0x4Du8, 0x61u8, 0x70u8]) by {
                assert(seq![0x56u8, 0x65u8, 0x63u8, 0x74u8, 0x6Fu8, 0x72u8][0] != seq![0x49u8, 0x6Du8, 0x6Du8, 0x4Du8, 0x61u8, 0x70u8][0]);
            }
            assert(seq![0x56u8, 0x65u8, 0x63u8, 0x74u8, 0x6Fu8, 0x72u8] != seq![0x49u8, 0x6Du8, 0x6Du8, 0x53u8, 0x65u8, 0x74u8]) by {
                assert(seq![0x56u8, 0x65u8, 0x63u8, 0x74u8, 0x6Fu8, 0x72u8][0] != seq![0x49u8, 0x6Du8, 0x6Du8, 0x53u8, 0x65u8, 0x74u8][0]);
            }
            assert(seq![0x56u8, 0x65u8, 0x63u8, 0x74u8, 0x6Fu8, 0x72u8] != seq![0x49u8, 0x6Du8, 0x6Du8, 0x56u8, 0x65u8, 0x63u8, 0x74u8, 0x6Fu8, 0x72u8]) by {
                assert(seq![0x56u8, 0x65u8, 0x63u8, 0x74u8, 0x6Fu8, 0x72u8].len() != seq![0x49u8, 0x6Du8, 0x6Du8, 0x56u8, 0x65u8, 0x63u8, 0x74u8, 0x6Fu8, 0x72u8].len());
            }
            assert(seq![0x56u8, 0x65u8, 0x63u8, 0x74u8, 0x6Fu8, 0x72u8] != seq![0x4Du8, 0x61u8, 0x70u8]) by {
                assert(seq![0x56u8, 0x65u8, 0x63u8, 0x74u8, 0x6Fu8, 0x72u8].len() != seq![0x4Du8, 0x61u8, 0x70u8].len());
            }
            assert(seq![0x56u8, 0x65u8, 0x63u8, 0x74u8, 0x6Fu8, 0x72u8] != seq![0x50u8, 0x61u8, 0x69u8, 0x72u8]) by {
                assert(seq![0x56u8, 0x65u8, 0x63u8, 0x74u8, 0x6Fu8, 0x72u8].len() != seq![0x50u8, 0x61u8, 0x69u8, 0x72u8].len());
            }
            assert(seq![0x56u8, 0x65u8, 0x63u8, 0x74u8, 0x6Fu8, 0x72u8] != seq![0x53u8, 0x65u8, 0x74u8]) by {
                assert(seq![0x56u8, 0x65u8, 0x63u8, 0x74u8, 0x6Fu8, 0x72u8].len() != seq![0x53u8, 0x65u8, 0x74u8].len());
            }
            assert(spec_parse_collection_type(seq![0x56u8, 0x65u8, 0x63u8, 0x74u8, 0x6Fu8, 0x72u8]) == Some(CollectionType::Vector));
        },
    }
}

/// Decode one `CollectionType` keyword.
pub fn assemble_collection_type(c: &mut TokenCursor) -> (r: Result<CollectionType, ParseError>)
    requires
        old(c).wf(),
    ensures
        final(c).wf(),
        final(c).toks() == old(c).toks(),
        (r is Ok) <==> (old(c).at() < old(c).toks().len() && (match old(c).toks()[old(c).at()] {
            Token::Identifier(b, _) => spec_parse_collection_type(b@) is Some,
            _ => false,
        })),
        r matches Ok(v) ==> final(c).at() == old(c).at() + 1 && (match old(c).toks()[old(c).at()] {
            Token::Identifier(b, _) => spec_parse_collection_type(b@) == Some(v),
            _ => false,
        }),
        r matches Err(e) ==> (match e.tok {
            Some(t2) => old(c).at() < old(c).toks().len() && token_den(t2) == token_den(
                old(c).toks()[old(c).at()],
            ) && e.pos == spec_token_pos(old(c).toks()[old(c).at()]),
            Option::None => old(c).at() >= old(c).toks().len() && e.kind
                == ParseErrorKind::UnexpectedEnd,
        }),
{
    let pos = c.here();
    match c.next() {
        Some(Token::Identifier(b, p)) => {
            let p = *p;
            let k_immmap: [u8; 6] = [0x49, 0x6D, 0x6D, 0x4D, 0x61, 0x70];
            if bytes_eq(b.as_slice(), k_immmap.as_slice()) {
                proof {
                    assert(b@ =~= seq![0x49u8, 0x6Du8, 0x6Du8, 0x4Du8, 0x61u8, 0x70u8]);
                }
                return Ok(CollectionType::ImmMap);
            }
            let k_immset: [u8; 6] = [0x49, 0x6D, 0x6D, 0x53, 0x65, 0x74];
            if bytes_eq(b.as_slice(), k_immset.as_slice()) {
                proof {
                    assert(b@ =~= seq![0x49u8, 0x6Du8, 0x6Du8, 0x53u8, 0x65u8, 0x74u8]);
                }
                return Ok(CollectionType::ImmSet);
            }
            let k_immvector: [u8; 9] = [0x49, 0x6D, 0x6D, 0x56, 0x65, 0x63, 0x74, 0x6F, 0x72];
            if bytes_eq(b.as_slice(), k_immvector.as_slice()) {
                proof {
                    assert(b@ =~= seq![0x49u8, 0x6Du8, 0x6Du8, 0x56u8, 0x65u8, 0x63u8, 0x74u8, 0x6Fu8, 0x72u8]);
                }
                return Ok(CollectionType::ImmVector);
            }
            let k_collmap: [u8; 3] = [0x4D, 0x61, 0x70];
            if bytes_eq(b.as_slice(), k_collmap.as_slice()) {
                proof {
                    assert(b@ =~= seq![0x4Du8, 0x61u8, 0x70u8]);
                }
                return Ok(CollectionType::CollMap);
            }
            let k_pair: [u8; 4] = [0x50, 0x61, 0x69, 0x72];
            if bytes_eq(b.as_slice(), k_pair.as_slice()) {
                proof {
                    assert(b@ =~= seq![0x50u8, 0x61u8, 0x69u8, 0x72u8]);
                }
                return Ok(CollectionType::Pair);
            }
            let k_collset: [u8; 3] = [0x53, 0x65, 0x74];
            if bytes_eq(b.as_slice(), k_collset.as_slice()) {
                proof {
                    assert(b@ =~= seq![0x53u8, 0x65u8, 0x74u8]);
                }
                return Ok(CollectionType::CollSet);
            }
            let k_vector: [u8; 6] = [0x56, 0x65, 0x63, 0x74, 0x6F, 0x72];
            if bytes_eq(b.as_slice(), k_vector.as_slice()) {
                proof {
                    assert(b@ =~= seq![0x56u8, 0x65u8, 0x63u8, 0x74u8, 0x6Fu8, 0x72u8]);
                }
                return Ok(CollectionType::Vector);
            }
            Err(err_ident(ParseErrorKind::UnknownKeyword, b, p))
        },
        Some(t) => Err(err_at(ParseErrorKind::UnexpectedToken, t)),
        Option::None => Err(err_end(pos)),
    }
}

#[derive(Copy, Clone, Debug, PartialEq, Eq, Structural)]
pub enum IncDecOp {
    PostDec,
    PostInc,
    PreDec,
    PreInc,
}

/// The keyword that names each variant; the match is exhaustive, so
/// every variant has a table entry.
pub open spec fn spec_inc_dec_op_keyword(v: IncDecOp) -> Seq<u8> {
    match v {
        IncDecOp::PostDec => seq![0x50u8, 0x6Fu8, 0x73u8, 0x74u8, 0x44u8, 0x65u8, 0x63u8],
        IncDecOp::PostInc => seq![0x50u8, 0x6Fu8, 0x73u8, 0x74u8, 0x49u8, 0x6Eu8, 0x63u8],
        IncDecOp::PreDec => seq![0x50u8, 0x72u8, 0x65u8, 0x44u8, 0x65u8, 0x63u8],
        IncDecOp::PreInc => seq![0x50u8, 0x72u8, 0x65u8, 0x49u8, 0x6Eu8, 0x63u8],
    }
}

/// The variant a keyword names, if any.
pub open spec fn spec_parse_inc_dec_op(b: Seq<u8>) -> Option<IncDecOp> {
    if b == seq![0x50u8, 0x6Fu8, 0x73u8, 0x74u8, 0x44u8, 0x65u8, 0x63u8] {
        Some(IncDecOp::PostDec)
    } else if b == seq![0x50u8, 0x6Fu8, 0x73u8, 0x74u8, 0x49u8, 0x6Eu8, 0x63u8] {
        Some(IncDecOp::PostInc)
    } else if b == seq![0x50u8, 0x72u8, 0x65u8, 0x44u8, 0x65u8, 0x63u8] {
        Some(IncDecOp::PreDec)
    } else if b == seq![0x50u8, 0x72u8, 0x65u8, 0x49u8, 0x6Eu8, 0x63u8] {
        Some(IncDecOp::PreInc)
    } else {
        Option::None
    }
}

/// Law: every variant's keyword parses back to that variant, so the
/// table is exhaustive and unambiguous.
pub proof fn lemma_inc_dec_op_exhaustive(v: IncDecOp)
    ensures
        spec_parse_inc_dec_op(spec_inc_dec_op_keyword(v)) == Some(v),
{
    match v {
        IncDecOp::PostDec => {
            assert(spec_parse_inc_dec_op(seq![0x50u8, 0x6Fu8, 0x73u8, 0x74u8, 0x44u8, 0x65u8, 0x63u8]) == Some(IncDecOp::PostDec));
        },
        IncDecOp::PostInc => {
            assert(seq![0x50u8, 0x6Fu8, 0x73u8, 0x74u8, 0x49u8, 0x6Eu8, 0x63u8] != seq![0x50u8, 0x6Fu8, 0x73u8, 0x74u8, 0x44u8, 0x65u8, 0x63u8]) by {
                assert(seq![0x50u8, 0x6Fu8, 0x73u8, 0x74u8, 0x49u8, 0x6Eu8, 0x63u8][4] != seq![0x50u8, 0x6Fu8, 0x73u8, 0x74u8, 0x44u8, 0x65u8, 0x63u8][4]);
            }
            assert(spec_parse_inc_dec_op(seq![0x50u8, 0x6Fu8, 0x73u8, 0x74u8, 0x49u8, 0x6Eu8, 0x63u8]) == Some(IncDecOp::PostInc));
        },
        IncDecOp::PreDec => {
            assert(seq![0x50u8, 0x72u8, 0x65u8, 0x44u8, 0x65u8, 0x63u8] != seq![0x50u8, 0x6Fu8, 0x73u8, 0x74u8, 0x44u8, 0x65u8, 0x63u8]) by {
                assert(seq![0x50u8, 0x72u8, 0x65u8, 0x44u8, 0x65u8, 0x63u8].len() != seq![0x50u8, 0x6Fu8, 0x73u8, 0x74u8, 0x44u8, 0x65u8, 0x63u8].len());
            }
            assert(seq![0x50u8, 0x72u8, 0x65u8, 0x44u8, 0x65u8, 0x63u8] != seq![0x50u8, 0x6Fu8, 0x73u8, 0x74u8, 0x49u8, 0x6Eu8, 0x63u8]) by {
                assert(seq![0x50u8, 0x72u8, 0x65u8, 0x44u8, 0x65u8, 0x63u8].len() != seq![0x50u8, 0x6Fu8, 0x73u8, 0x74u8, 0x49u8, 0x6Eu8, 0x63u8].len());
            }
            assert(spec_parse_inc_dec_op(seq![0x50u8, 0x72u8, 0x65u8, 0x44u8, 0x65u8, 0x63u8]) == Some(IncDecOp::PreDec));
        },
        IncDecOp::PreInc => {
            assert(seq![0x50u8, 0x72u8, 0x65u8, 0x49u8, 0x6Eu8, 0x63u8] != seq![0x50u8, 0x6Fu8, 0x73u8, 0x74u8, 0x44u8, 0x65u8, 0x63u8]) by {
                assert(seq![0x50u8, 0x72u8, 0x65u8, 0x49u8, 0x6Eu8, 0x63u8].len() != seq![0x50u8, 0x6Fu8, 0x73u8, 0x74u8, 0x44u8, 0x65u8, 0x63u8].len());
            }
            assert(seq![0x50u8, 0x72u8, 0x65u8, 0x49u8, 0x6Eu8, 0x63u8] != seq![0x50u8, 0x6Fu8, 0x73u8, 0x74u8, 0x49u8, 0x6Eu8, 0x63u8]) by {
                assert(seq![0x50u8, 0x72u8, 0x65u8, 0x49u8, 0x6Eu8, 0x63u8].len() != seq![0x50u8, 0x6Fu8, 0x73u8, 0x74u8, 0x49u8, 0x6Eu8, 0x63u8].len());
            }
            assert(seq![0x50u8, 0x72u8, 0x65u8, 0x49u8, 0x6Eu8, 0x63u8] != seq![0x50u8, 0x72u8, 0x65u8, 0x44u8, 0x65u8, 0x63u8]) by {
                assert(seq![0x50u8, 0x72u8, 0x65u8, 0x49u8, 0x6Eu8, 0x63u8][3] != seq![0x50u8, 0x72u8, 0x65u8, 0x44u8, 0x65u8, 0x63u8][3]);
            }
            assert(spec_parse_inc_dec_op(seq![0x50u8, 0x72u8, 0x65u8, 0x49u8, 0x6Eu8, 0x63u8]) == Some(IncDecOp::PreInc));
        },
    }
}

/// Decode one `IncDecOp` keyword.
pub fn assemble_inc_dec_op(c: &mut TokenCursor) -> (r: Result<IncDecOp, ParseError>)
    requires
        old(c).wf(),
    ensures
        final(c).wf(),
        final(c).toks() == old(c).toks(),
        (r is Ok) <==> (old(c).at() < old(c).toks().len() && (match old(c).toks()[old(c).at()] {
            Token::Identifier(b, _) => spec_parse_inc_dec_op(b@) is Some,
            _ => false,
        })),
        r matches Ok(v) ==> final(c).at() == old(c).at() + 1 && (match old(c).toks()[old(c).at()] {
            Token::Identifier(b, _) => spec_parse_inc_dec_op(b@) == Some(v),
            _ => false,
        }),
        r matches Err(e) ==> (match e.tok {
            Some(t2) => old(c).at() < old(c).toks().len() && token_den(t2) == token_den(
                old(c).toks()[old(c).at()],
            ) && e.pos == spec_token_pos(old(c).toks()[old(c).at()]),
            Option::None => old(c).at() >= old(c).toks().len() && e.kind
                == ParseErrorKind::UnexpectedEnd,
        }),
{
    let pos = c.here();
    match c.next() {
        Some(Token::Identifier(b, p)) => {
            let p = *p;
            let k_postdec: [u8; 7] = [0x50, 0x6F, 0x73, 0x74, 0x44, 0x65, 0x63];
            if bytes_eq(b.as_slice(), k_postdec.as_slice()) {
                proof {
                    assert(b@ =~= seq![0x50u8, 0x6Fu8, 0x73u8, 0x74u8, 0x44u8, 0x65u8, 0x63u8]);
                }
                return Ok(IncDecOp::PostDec);
            }
            let k_postinc: [u8; 7] = [0x50, 0x6F, 0x73, 0x74, 0x49, 0x6E, 0x63];
            if bytes_eq(b.as_slice(), k_postinc.as_slice()) {
                proof {
                    assert(b@ =~= seq![0x50u8, 0x6Fu8, 0x73u8, 0x74u8, 0x49u8, 0x6Eu8, 0x63u8]);
                }
                return Ok(IncDecOp::PostInc);
            }
            let k_predec: [u8; 6] = [0x50, 0x72, 0x65, 0x44, 0x65, 0x63];
            if bytes_eq(b.as_slice(), k_predec.as_slice()) {
                proof {
                    assert(b@ =~= seq![0x50u8, 0x72u8, 0x65u8, 0x44u8, 0x65u8, 0x63u8]);
                }
                return Ok(IncDecOp::PreDec);
            }
            let k_preinc: [u8; 6] = [0x50, 0x72, 0x65, 0x49, 0x6E, 0x63];
            if bytes_eq(b.as_slice(), k_preinc.as_slice()) {
                proof {
                    assert(b@ =~= seq![0x50u8, 0x72u8, 0x65u8, 0x49u8, 0x6Eu8, 0x63u8]);
                }
                return Ok(IncDecOp::PreInc);
            }
            Err(err_ident(ParseErrorKind::UnknownKeyword, b, p))
        },
        Some(t) => Err(err_at(ParseErrorKind::UnexpectedToken, t)),
        Option::None => Err(err_end(pos)),
    }
}

#[derive(Copy, Clone, Debug, PartialEq, Eq, Structural)]
pub enum InitPropOp {
    NonStatic,
    Static,
}

/// The keyword that names each variant; the match is exhaustive, so
/// every variant has a table entry.
pub open spec fn spec_init_prop_op_keyword(v: InitPropOp) -> Seq<u8> {
    match v {
        InitPropOp::NonStatic => seq![0x4Eu8, 0x6Fu8, 0x6Eu8, 0x53u8, 0x74u8, 0x61u8, 0x74u8, 0x69u8, 0x63u8],
        InitPropOp::Static => seq![0x53u8, 0x74u8, 0x61u8, 0x74u8, 0x69u8, 0x63u8],
    }
}

/// The variant a keyword names, if any.
pub open spec fn spec_parse_init_prop_op(b: Seq<u8>) -> Option<InitPropOp> {
    if b == seq![0x4Eu8, 0x6Fu8, 0x6Eu8, 0x53u8, 0x74u8, 0x61u8, 0x74u8, 0x69u8, 0x63u8] {
        Some(InitPropOp::NonStatic)
    } else if b == seq![0x53u8, 0x74u8, 0x61u8, 0x74u8, 0x69u8, 0x63u8] {
        Some(InitPropOp::Static)
    } else {
        Option::None
    }
}

/// Law: every variant's keyword parses back to that variant, so the
/// table is exhaustive and unambiguous.
pub proof fn lemma_init_prop_op_exhaustive(v: InitPropOp)
    ensures
        spec_parse_init_prop_op(spec_init_prop_op_keyword(v)) == Some(v),
{
    match v {
        InitPropOp::NonStatic => {
            assert(spec_parse_init_prop_op(seq![0x4Eu8, 0x6Fu8, 0x6Eu8, 0x53u8, 0x74u8, 0x61u8, 0x74u8, 0x69u8, 0x63u8]) == Some(InitPropOp::NonStatic));
        },
        InitPropOp::Static => {
            assert(seq![0x53u8, 0x74u8, 0x61u8, 0x74u8, 0x69u8, 0x63u8] != seq![0x4Eu8, 0x6Fu8, 0x6Eu8, 0x53u8, 0x74u8, 0x61u8, 0x74u8, 0x69u8, 0x63u8]) by {
                assert(seq![0x53u8, 0x74u8, 0x61u8, 0x74u8, 0x69u8, 0x63u8].len() != seq![0x4Eu8, 0x6Fu8, 0x6Eu8, 0x53u8, 0x74u8, 0x61u8, 0x74u8, 0x69u8, 0x63u8].len());
            }
            assert(spec_parse_init_prop_op(seq![0x53u8, 0x74u8, 0x61u8, 0x74u8, 0x69u8, 0x63u8]) == Some(InitPropOp::Static));
        },
    }
}

/// Decode one `InitPropOp` keyword.
pub fn assemble_init_prop_op(c: &mut TokenCursor) -> (r: Result<InitPropOp, ParseError>)
    requires
        old(c).wf(),
    ensures
        final(c).wf(),
        final(c).toks() == old(c).toks(),
        (r is Ok) <==> (old(c).at() < old(c).toks().len() && (match old(c).toks()[old(c).at()] {
            Token::Identifier(b, _) => spec_parse_init_prop_op(b@) is Some,
            _ => false,
        })),
        r matches Ok(v) ==> final(c).at() == old(c).at() + 1 && (match old(c).toks()[old(c).at()] {
            Token::Identifier(b, _) => spec_parse_init_prop_op(b@) == Some(v),
            _ => false,
        }),
        r matches Err(e) ==> (match e.tok {
            Some(t2) => old(c).at() < old(c).toks().len() && token_den(t2) == token_den(
                old(c).toks()[old(c).at()],
            ) && e.pos == spec_token_pos(old(c).toks()[old(c).at()]),
            Option::None => old(c).at() >= old(c).toks().len() && e.kind
                == ParseErrorKind::UnexpectedEnd,
        }),
{
    let pos = c.here();
    match c.next() {
        Some(Token::Identifier(b, p)) => {
            let p = *p;
            let k_nonstatic: [u8; 9] = [0x4E, 0x6F, 0x6E, 0x53, 0x74, 0x61, 0x74, 0x69, 0x63];
            if bytes_eq(b.as_slice(), k_nonstatic.as_slice()) {
                proof {
                    assert(b@ =~= seq![0x4Eu8, 0x6Fu8, 0x6Eu8, 0x53u8, 0x74u8, 0x61u8, 0x74u8, 0x69u8, 0x63u8]);
                }
                return Ok(InitPropOp::NonStatic);
            }
            let k_static: [u8; 6] = [0x53, 0x74, 0x61, 0x74, 0x69, 0x63];
            if bytes_eq(b.as_slice(), k_static.as_slice()) {
                proof {
                    assert(b@ =~= seq![0x53u8, 0x74u8, 0x61u8, 0x74u8, 0x69u8, 0x63u8]);
                }
                return Ok(InitPropOp::Static);
            }
            Err(err_ident(ParseErrorKind::UnknownKeyword, b, p))
        },
        Some(t) => Err(err_at(ParseErrorKind::UnexpectedToken, t)),
        Option::None => Err(err_end(pos)),
    }
}

#[derive(Copy, Clone, Debug, PartialEq, Eq, Structural)]
pub enum IsLogAsDynamicCallOp {
    DontLogAsDynamicCall,
    LogAsDynamicCall,
}

/// The keyword that names each variant; the match is exhaustive, so
/// every variant has a table entry.
pub open spec fn spec_is_log_as_dynamic_call_op_keyword(v: IsLogAsDynamicCallOp) -> Seq<u8> {
    match v {
        IsLogAsDynamicCallOp::DontLogAsDynamicCall => seq![0x44u8, 0x6Fu8, 0x6Eu8, 0x74u8, 0x4Cu8, 0x6Fu8, 0x67u8, 0x41u8, 0x73u8, 0x44u8, 0x79u8, 0x6Eu8, 0x61u8, 0x6Du8, 0x69u8, 0x63u8, 0x43u8, 0x61u8, 0x6Cu8, 0x6Cu8],
        IsLogAsDynamicCallOp::LogAsDynamicCall => seq![0x4Cu8, 0x6Fu8, 0x67u8, 0x41u8, 0x73u8, 0x44u8, 0x79u8, 0x6Eu8, 0x61u8, 0x6Du8, 0x69u8, 0x63u8, 0x43u8, 0x61u8, 0x6Cu8, 0x6Cu8],
    }
}

/// The variant a keyword names, if any.
pub open spec fn spec_parse_is_log_as_dynamic_call_op(b: Seq<u8>) -> Option<IsLogAsDynamicCallOp> {
    if b == seq![0x44u8, 0x6Fu8, 0x6Eu8, 0x74u8, 0x4Cu8, 0x6Fu8, 0x67u8, 0x41u8, 0x73u8, 0x44u8, 0x79u8, 0x6Eu8, 0x61u8, 0x6Du8, 0x69u8, 0x63u8, 0x43u8, 0x61u8, 0x6Cu8, 0x6Cu8] {
        Some(IsLogAsDynamicCallOp::DontLogAsDynamicCall)
    } else if b == seq![0x4Cu8, 0x6Fu8, 0x67u8, 0x41u8, 0x73u8, 0x44u8, 0x79u8, 0x6Eu8, 0x61u8, 0x6Du8, 0x69u8, 0x63u8, 0x43u8, 0x61u8, 0x6Cu8, 0x6Cu8] {
        Some(IsLogAsDynamicCallOp::LogAsDynamicCall)
    } else {
        Option::None
    }
}

/// Law: every variant's keyword parses back to that variant, so the
/// table is exhaustive and unambiguous.
pub proof fn lemma_is_log_as_dynamic_call_op_exhaustive(v: IsLogAsDynamicCallOp)
    ensures
        spec_parse_is_log_as_dynamic_call_op(spec_is_log_as_dynamic_call_op_keyword(v)) == Some(v),
{
    match v {
        IsLogAsDynamicCallOp::DontLogAsDynamicCall => {
            assert(spec_parse_is_log_as_dynamic_call_op(seq![0x44u8, 0x6Fu8, 0x6Eu8, 0x74u8, 0x4Cu8, 0x6Fu8, 0x67u8, 0x41u8, 0x73u8, 0x44u8, 0x79u8, 0x6Eu8, 0x61u8, 0x6Du8, 0x69u8, 0x63u8, 0x43u8, 0x61u8, 0x6Cu8, 0x6Cu8]) == Some(IsLogAsDynamicCallOp::DontLogAsDynamicCall));
        },
        IsLogAsDynamicCallOp::LogAsDynamicCall => {
            assert(seq![0x4Cu8, 0x6Fu8, 0x67u8, 0x41u8, 0x73u8, 0x44u8, 0x79u8, 0x6Eu8, 0x61u8, 0x6Du8, 0x69u8, 0x63u8, 0x43u8, 0x61u8, 0x6Cu8, 0x6Cu8] != seq![0x44u8, 0x6Fu8, 0x6Eu8, 0x74u8, 0x4Cu8, 0x6Fu8, 0x67u8, 0x41u8, 0x73u8, 0x44u8, 0x79u8, 0x6Eu8, 0x61u8, 0x6Du8, 0x69u8, 0x63u8, 0x43u8, 0x61u8, 0x6Cu8, 0x6Cu8]) by {
                assert(seq![0x4Cu8, 0x6Fu8, 0x67u8, 0x41u8, 0x73u8, 0x44u8, 0x79u8, 0x6Eu8, 0x61u8, 0x6Du8, 0x69u8, 0x63u8, 0x43u8, 0x61u8, 0x6Cu8, 0x6Cu8].len() != seq![0x44u8, 0x6Fu8, 0x6Eu8, 0x74u8, 0x4Cu8, 0x6Fu8, 0x67u8, 0x41u8, 0x73u8, 0x44u8, 0x79u8, 0x6Eu8, 0x61u8, 0x6Du8, 0x69u8, 0x63u8, 0x43u8, 0x61u8, 0x6Cu8, 0x6Cu8].len());
            }
            assert(spec_parse_is_log_as_dynamic_call_op(seq![0x4Cu8, 0x6Fu8, 0x67u8, 0x41u8, 0x73u8, 0x44u8, 0x79u8, 0x6Eu8, 0x61u8, 0x6Du8, 0x69u8, 0x63u8, 0x43u8, 0x61u8, 0x6Cu8, 0x6Cu8]) == Some(IsLogAsDynamicCallOp::LogAsDynamicCall));
        },
    }
}

/// Decode one `IsLogAsDynamicCallOp` keyword.
pub fn assemble_is_log_as_dynamic_call_op(c: &mut TokenCursor) -> (r: Result<IsLogAsDynamicCallOp, ParseError>)
    requires
        old(c).wf(),
    ensures
        final(c).wf(),
        final(c).toks() == old(c).toks(),
        (r is Ok) <==> (old(c).at() < old(c).toks().len() && (match old(c).toks()[old(c).at()] {
            Token::Identifier(b, _) => spec_parse_is_log_as_dynamic_call_op(b@) is Some,
            _ => false,
        })),
        r matches Ok(v) ==> final(c).at() == old(c).at() + 1 && (match old(c).toks()[old(c).at()] {
            Token::Identifier(b, _) => spec_parse_is_log_as_dynamic_call_op(b@) == Some(v),
            _ => false,
        }),
        r matches Err(e) ==> (match e.tok {
            Some(t2) => old(c).at() < old(c).toks().len() && token_den(t2) == token_den(
                old(c).toks()[old(c).at()],
            ) && e.pos == spec_token_pos(old(c).toks()[old(c).at()]),
            Option::None => old(c).at() >= old(c).toks().len() && e.kind
                == ParseErrorKind::UnexpectedEnd,
        }),
{
    let pos = c.here();
    match c.next() {
        Some(Token::Identifier(b, p)) => {
            let p = *p;
            let k_dontlogasdynamiccall: [u8; 20] = [0x44, 0x6F, 0x6E, 0x74, 0x4C, 0x6F, 0x67, 0x41, 0x73, 0x44, 0x79, 0x6E, 0x61, 0x6D, 0x69, 0x63, 0x43, 0x61, 0x6C, 0x6C];
            if bytes_eq(b.as_slice(), k_dontlogasdynamiccall.as_slice()) {
                proof {
                    assert(b@ =~= seq![0x44u8, 0x6Fu8, 0x6Eu8, 0x74u8, 0x4Cu8, 0x6Fu8, 0x67u8, 0x41u8, 0x73u8, 0x44u8, 0x79u8, 0x6Eu8, 0x61u8, 0x6Du8, 0x69u8, 0x63u8, 0x43u8, 0x61u8, 0x6Cu8, 0x6Cu8]);
                }
                return Ok(IsLogAsDynamicCallOp::DontLogAsDynamicCall);
            }
            let k_logasdynamiccall: [u8; 16] = [0x4C, 0x6F, 0x67, 0x41, 0x73, 0x44, 0x79, 0x6E, 0x61, 0x6D, 0x69, 0x63, 0x43, 0x61, 0x6C, 0x6C];
            if bytes_eq(b.as_slice(), k_logasdynamiccall.as_slice()) {
                proof {
                    assert(b@ =~= seq![0x4Cu8, 0x6Fu8, 0x67u8, 0x41u8, 0x73u8, 0x44u8, 0x79u8, 0x6Eu8, 0x61u8, 0x6Du8, 0x69u8, 0x63u8, 0x43u8, 0x61u8, 0x6Cu8, 0x6Cu8]);
                }
                return Ok(IsLogAsDynamicCallOp::LogAsDynamicCall);
            }
            Err(err_ident(ParseErrorKind::UnknownKeyword, b, p))
        },
        Some(t) => Err(err_at(ParseErrorKind::UnexpectedToken, t)),
        Option::None => Err(err_end(pos)),
    }
}

#[derive(Copy, Clone, Debug, PartialEq, Eq, Structural)]
pub enum IsTypeOp {
    ArrLike,
    TyBool,
    TyClass,
    ClsMeth,
    Dbl,
    TyDict,
    Func,
    TyInt,
    TyKeyset,
    LegacyArrLike,
    TyNull,
    Obj,
    Res,
    Scalar,
    TyStr,
    TyVec,
}

/// The keyword that names each variant; the match is exhaustive, so
/// every variant has a table entry.
pub open spec fn spec_is_type_op_keyword(v: IsTypeOp) -> Seq<u8> {
    match v {
        IsTypeOp::ArrLike => seq![0x41u8, 0x72u8, 0x72u8, 0x4Cu8, 0x69u8, 0x6Bu8, 0x65u8],
        IsTypeOp::TyBool => seq![0x42u8, 0x6Fu8, 0x6Fu8, 0x6Cu8],
        IsTypeOp::TyClass => seq![0x43u8, 0x6Cu8, 0x61u8, 0x73u8, 0x73u8],
        IsTypeOp::ClsMeth => seq![0x43u8, 0x6Cu8, 0x73u8, 0x4Du8, 0x65u8, 0x74u8, 0x68u8],
        IsTypeOp::Dbl => seq![0x44u8, 0x62u8, 0x6Cu8],
        IsTypeOp::TyDict => seq![0x44u8, 0x69u8, 0x63u8, 0x74u8],
        IsTypeOp::Func => seq![0x46u8, 0x75u8, 0x6Eu8, 0x63u8],
        IsTypeOp::TyInt => seq![0x49u8, 0x6Eu8, 0x74u8],
        IsTypeOp::TyKeyset => seq![0x4Bu8, 0x65u8, 0x79u8, 0x73u8, 0x65u8, 0x74u8],
        IsTypeOp::LegacyArrLike => seq![0x4Cu8, 0x65u8, 0x67u8, 0x61u8, 0x63u8, 0x79u8, 0x41u8, 0x72u8, 0x72u8, 0x4Cu8, 0x69u8, 0x6Bu8, 0x65u8],
        IsTypeOp::TyNull => seq![0x4Eu8, 0x75u8, 0x6Cu8, 0x6Cu8],
        IsTypeOp::Obj => seq![0x4Fu8, 0x62u8, 0x6Au8],
        IsTypeOp::Res => seq![0x52u8, 0x65u8, 0x73u8],
        IsTypeOp::Scalar => seq![0x53u8, 0x63u8, 0x61u8, 0x6Cu8, 0x61u8, 0x72u8],
        IsTypeOp::TyStr => seq![0x53u8, 0x74u8, 0x72u8],
        IsTypeOp::TyVec => seq![0x56u8, 0x65u8, 0x63u8],
    }
}

/// The variant a keyword names, if any.
pub open spec fn spec_parse_is_type_op(b: Seq<u8>) -> Option<IsTypeOp> {
    if b == seq![0x41u8, 0x72u8, 0x72u8, 0x4Cu8, 0x69u8, 0x6Bu8, 0x65u8] {
        Some(IsTypeOp::ArrLike)
    } else if b == seq![0x42u8, 0x6Fu8, 0x6Fu8, 0x6Cu8] {
        Some(IsTypeOp::TyBool)
    } else if b == seq![0x43u8, 0x6Cu8, 0x61u8, 0x73u8, 0x73u8] {
        Some(IsTypeOp::TyClass)
    } else if b == seq![0x43u8, 0x6Cu8, 0x73u8, 0x4Du8, 0x65u8, 0x74u8, 0x68u8] {
        Some(IsTypeOp::ClsMeth)
    } else if b == seq![0x44u8, 0x62u8, 0x6Cu8] {
        Some(IsTypeOp::Dbl)
    } else if b == seq![0x44u8, 0x69u8, 0x63u8, 0x74u8] {
        Some(IsTypeOp::TyDict)
    } else if b == seq![0x46u8, 0x75u8, 0x6Eu8, 0x63u8] {
        Some(IsTypeOp::Func)
    } else if b == seq![0x49u8, 0x6Eu8, 0x74u8] {
        Some(IsTypeOp::TyInt)
    } else if b == seq![0x4Bu8, 0x65u8, 0x79u8, 0x73u8, 0x65u8, 0x74u8] {
        Some(IsTypeOp::TyKeyset)
    } else if b == seq![0x4Cu8, 0x65u8, 0x67u8, 0x61u8, 0x63u8, 0x79u8, 0x41u8, 0x72u8, 0x72u8, 0x4Cu8, 0x69u8, 0x6Bu8, 0x65u8] {
        Some(IsTypeOp::LegacyArrLike)
    } else if b == seq![0x4Eu8, 0x75u8, 0x6Cu8, 0x6Cu8] {
        Some(IsTypeOp::TyNull)
    } else if b == seq![0x4Fu8, 0x62u8, 0x6Au8] {
        Some(IsTypeOp::Obj)
    } else if b == seq![0x52u8, 0x65u8, 0x73u8] {
        Some(IsTypeOp::Res)
    } else if b == seq![0x53u8, 0x63u8, 0x61u8, 0x6Cu8, 0x61u8, 0x72u8] {
        Some(IsTypeOp::Scalar)
    } else if b == seq![0x53u8, 0x74u8, 0x72u8] {
        Some(IsTypeOp::TyStr)
    } else if b == seq![0x56u8, 0x65u8, 0x63u8] {
        Some(IsTypeOp::TyVec)
    } else {
        Option::None
    }
}

/// Law: every variant's keyword parses back to that variant, so the
/// table is exhaustive and unambiguous.
pub proof fn lemma_is_type_op_exhaustive(v: IsTypeOp)
    ensures
        spec_parse_is_type_op(spec_is_type_op_keyword(v)) == Some(v),
{
    match v {
        IsTypeOp::ArrLike => {
            assert(spec_parse_is_type_op(seq![0x41u8, 0x72u8, 0x72u8, 0x4Cu8, 0x69u8, 0x6Bu8, 0x65u8]) == Some(IsTypeOp::ArrLike));
        },
        IsTypeOp::TyBool => {
            assert(seq![0x42u8, 0x6Fu8, 0x6Fu8, 0x6Cu8] != seq![0x41u8, 0x72u8, 0x72u8, 0x4Cu8, 0x69u8, 0x6Bu8, 0x65u8]) by {
                assert(seq![0x42u8, 0x6Fu8, 0x6Fu8, 0x6Cu8].len() != seq![0x41u8, 0x72u8, 0x72u8, 0x4Cu8, 0x69u8, 0x6Bu8, 0x65u8].len());
            }
            assert(spec_parse_is_type_op(seq![0x42u8, 0x6Fu8, 0x6Fu8, 0x6Cu8]) == Some(IsTypeOp::TyBool));
        },
        IsTypeOp::TyClass => {
            assert(seq![0x43u8, 0x6Cu8, 0x61u8, 0x73u8, 0x73u8] != seq![0x41u8, 0x72u8, 0x72u8, 0x4Cu8, 0x69u8, 0x6Bu8, 0x65u8]) by {
                assert(seq![0x43u8, 0x6Cu8, 0x61u8, 0x73u8, 0x73u8].len() != seq![0x41u8, 0x72u8, 0x72u8, 0x4Cu8, 0x69u8, 0x6Bu8, 0x65u8].len());
            }
            assert(seq![0x43u8, 0x6Cu8, 0x61u8, 0x73u8, 0x73u8] != seq![0x42u8, 0x6Fu8, 0x6Fu8, 0x6Cu8]) by {
                assert(seq![0x43u8, 0x6Cu8, 0x61u8, 0x73u8, 0x73u8].len() != seq![0x42u8, 0x6Fu8, 0x6Fu8, 0x6Cu8].len());
            }
            assert(spec_parse_is_type_op(seq![0x43u8, 0x6Cu8, 0x61u8, 0x73u8, 0x73u8]) == Some(IsTypeOp::TyClass));
        },
        IsTypeOp::ClsMeth => {
            assert(seq![0x43u8, 0x6Cu8, 0x73u8, 0x4Du8, 0x65u8, 0x74u8, 0x68u8] != seq![0x41u8, 0x72u8, 0x72u8, 0x4Cu8, 0x69u8, 0x6Bu8, 0x65u8]) by {
                assert(seq![0x43u8, 0x6Cu8, 0x73u8, 0x4Du8, 0x65u8, 0x74u8, 0x68u8][0] != seq![0x41u8, 0x72u8, 0x72u8, 0x4Cu8, 0x69u8, 0x6Bu8, 0x65u8][0]);
            }
            assert(seq![0x43u8, 0x6Cu8, 0x73u8, 0x4Du8, 0x65u8, 0x74u8, 0x68u8] != seq![0x42u8, 0x6Fu8, 0x6Fu8, 0x6Cu8]) by {
                assert(seq![0x43u8, 0x6Cu8, 0x73u8, 0x4Du8, 0x65u8, 0x74u8, 0x68u8].len() != seq![0x42u8, 0x6Fu8, 0x6Fu8, 0x6Cu8].len());
            }
            assert(seq![0x43u8, 0x6Cu8, 0x73u8, 0x4Du8, 0x65u8, 0x74u8, 0x68u8] != seq![0x43u8, 0x6Cu8, 0x61u8, 0x73u8, 0x73u8]) by {
                assert(seq![0x43u8, 0x6Cu8, 0x73u8, 0x4Du8, 0x65u8, 0x74u8, 0x68u8].len() != seq![0x43u8, 0x6Cu8, 0x61u8, 0x73u8, 0x73u8].len());
            }
            assert(spec_parse_is_type_op(seq![0x43u8, 0x6Cu8, 0x73u8, 0x4Du8, 0x65u8, 0x74u8, 0x68u8]) == Some(IsTypeOp::ClsMeth));
        },
        IsTypeOp::Dbl => {
            assert(seq![0x44u8, 0x62u8, 0x6Cu8] != seq![0x41u8, 0x72u8, 0x72u8, 0x4Cu8, 0x69u8, 0x6Bu8, 0x65u8]) by {
                assert(seq![0x44u8, 0x62u8, 0x6Cu8].len() != seq![0x41u8, 0x72u8, 0x72u8, 0x4Cu8, 0x69u8, 0x6Bu8, 0x65u8].len());
            }
            assert(seq![0x44u8, 0x62u8, 0x6Cu8] != seq![0x42u8, 0x6Fu8, 0x6Fu8, 0x6Cu8]) by {
                assert(seq![0x44u8, 0x62u8, 0x6Cu8].len() != seq![0x42u8, 0x6Fu8, 0x6Fu8, 0x6Cu8].len());
            }
            assert(seq![0x44u8, 0x62u8, 0x6Cu8] != seq![0x43u8, 0x6Cu8, 0x61u8, 0x73u8, 0x73u8]) by {
                assert(seq![0x44u8, 0x62u8, 0x6Cu8].len() != seq![0x43u8, 0x6Cu8, 0x61u8, 0x73u8, 0x73u8].len());
            }
            assert(seq![0x44u8, 0x62u8, 0x6Cu8] != seq![0x43u8, 0x6Cu8, 0x73u8, 0x4Du8, 0x65u8, 0x74u8, 0x68u8]) by {
                assert(seq![0x44u8, 0x62u8, 0x6Cu8].len() != seq![0x43u8, 0x6Cu8, 0x73u8, 0x4Du8, 0x65u8, 0x74u8, 0x68u8].len());
            }
            assert(spec_parse_is_type_op(seq![0x44u8, 0x62u8, 0x6Cu8]) == Some(IsTypeOp::Dbl));
        },
        IsTypeOp::TyDict => {
            assert(seq![0x44u8, 0x69u8, 0x63u8, 0x74u8] != seq![0x41u8, 0x72u8, 0x72u8, 0x4Cu8, 0x69u8, 0x6Bu8, 0x65u8]) by {
                assert(seq![0x44u8, 0x69u8, 0x63u8, 0x74u8].len() != seq![0x41u8, 0x72u8, 0x72u8, 0x4Cu8, 0x69u8, 0x6Bu8, 0x65u8].len());
            }
            assert(seq![0x44u8, 0x69u8, 0x63u8, 0x74u8] != seq![0x42u8, 0x6Fu8, 0x6Fu8, 0x6Cu8]) by {
                assert(seq![0x44u8, 0x69u8, 0x63u8, 0x74u8][0] != seq![0x42u8, 0x6Fu8, 0x6Fu8, 0x6Cu8][0]);
            }
            assert(seq![0x44u8, 0x69u8, 0x63u8, 0x74u8] != seq![0x43u8, 0x6Cu8, 0x61u8, 0x73u8, 0x73u8]) by {
                assert(seq![0x44u8, 0x69u8, 0x63u8, 0x74u8].len() != seq![0x43u8, 0x6Cu8, 0x61u8, 0x73u8, 0x73u8].len());
            }
            assert(seq![0x44u8, 0x69u8, 0x63u8, 0x74u8] != seq![0x43u8, 0x6Cu8, 0x73u8, 0x4Du8, 0x65u8, 0x74u8, 0x68u8]) by {
                assert(seq![0x44u8, 0x69u8, 0x63u8, 0x74u8].len() != seq![0x43u8, 0x6Cu8, 0x73u8, 0x4Du8, 0x65u8, 0x74u8, 0x68u8].len());
            }
            assert(seq![0x44u8, 0x69u8, 0x63u8, 0x74u8] != seq![0x44u8, 0x62u8, 0x6Cu8]) by {
                assert(seq![0x44u8, 0x69u8, 0x63u8, 0x74u8].len() != seq![0x44u8, 0x62u8, 0x6Cu8].len());
            }
            assert(spec_parse_is_type_op(seq![0x44u8, 0x69u8, 0x63u8, 0x74u8]) == Some(IsTypeOp::TyDict));
        },
        IsTypeOp::Func => {
            assert(seq![0x46u8, 0x75u8, 0x6Eu8, 0x63u8] != seq![0x41u8, 0x72u8, 0x72u8, 0x4Cu8, 0x69u8, 0x6Bu8, 0x65u8]) by {
                assert(seq![0x46u8, 0x75u8, 0x6Eu8, 0x63u8].len() != seq![0x41u8, 0x72u8, 0x72u8, 0x4Cu8, 0x69u8, 0x6Bu8, 0x65u8].len());
            }
            assert(seq![0x46u8, 0x75u8, 0x6Eu8, 0x63u8] != seq![0x42u8, 0x6Fu8, 0x6Fu8, 0x6Cu8]) by {
                assert(seq![0x46u8, 0x75u8, 0x6Eu8, 0x63u8][0] != seq![0x42u8, 0x6Fu8, 0x6Fu8, 0x6Cu8][0]);
            }
            assert(seq![0x46u8, 0x75u8, 0x6Eu8, 0x63u8] != seq![0x43u8, 0x6Cu8, 0x61u8, 0x73u8, 0x73u8]) by {
                assert(seq![0x46u8, 0x75u8, 0x6Eu8, 0x63u8].len() != seq![0x43u8, 0x6Cu8, 0x61u8, 0x73u8, 0x73u8].len());
            }
            assert(seq![0x46u8, 0x75u8, 0x6Eu8, 0x63u8] != seq![0x43u8, 0x6Cu8, 0x73u8, 0x4Du8, 0x65u8, 0x74u8, 0x68u8]) by {
                assert(seq![0x46u8, 0x75u8, 0x6Eu8, 0x63u8].len() != seq![0x43u8, 0x6Cu8, 0x73u8, 0x4Du8, 0x65u8, 0x74u8, 0x68u8].len());
            }
            assert(seq![0x46u8, 0x75u8, 0x6Eu8, 0x63u8] != seq![0x44u8, 0x62u8, 0x6Cu8]) by {
                assert(seq![0x46u8, 0x75u8, 0x6Eu8, 0x63u8].len() != seq![0x44u8, 0x62u8, 0x6Cu8].len());
            }
            assert(seq![0x46u8, 0x75u8, 0x6Eu8, 0x63u8] != seq![0x44u8, 0x69u8, 0x63u8, 0x74u8]) by {
                assert(seq![0x46u8, 0x75u8, 0x6Eu8, 0x63u8][0] != seq![0x44u8, 0x69u8, 0x63u8, 0x74u8][0]);
            }
            assert(spec_parse_is_type_op(seq![0x46u8, 0x75u8, 0x6Eu8, 0x63u8]) == Some(IsTypeOp::Func));
        },
        IsTypeOp::TyInt => {
            assert(seq![0x49u8, 0x6Eu8, 0x74u8] != seq![0x41u8, 0x72u8, 0x72u8, 0x4Cu8, 0x69u8, 0x6Bu8, 0x65u8]) by {
                assert(seq![0x49u8, 0x6Eu8, 0x74u8].len() != seq![0x41u8, 0x72u8, 0x72u8, 0x4Cu8, 0x69u8, 0x6Bu8, 0x65u8].len());
            }
            assert(seq![0x49u8, 0x6Eu8, 0x74u8] != seq![0x42u8, 0x6Fu8, 0x6Fu8, 0x6Cu8]) by {
                assert(seq![0x49u8, 0x6Eu8, 0x74u8].len() != seq![0x42u8, 0x6Fu8, 0x6Fu8, 0x6Cu8].len());
            }
            assert(seq![0x49u8, 0x6Eu8, 0x74u8] != seq![0x43u8, 0x6Cu8, 0x61u8, 0x73u8, 0x73u8]) by {
                assert(seq![0x49u8, 0x6Eu8, 0x74u8].len() != seq![0x43u8, 0x6Cu8, 0x61u8, 0x73u8, 0x73u8].len());
            }
            assert(seq![0x49u8, 0x6Eu8, 0x74u8] != seq![0x43u8, 0x6Cu8, 0x73u8, 0x4Du8, 0x65u8, 0x74u8, 0x68u8]) by {
                assert(seq![0x49u8, 0x6Eu8, 0x74u8].len() != seq![0x43u8, 0x6Cu8, 0x73u8, 0x4Du8, 0x65u8, 0x74u8, 0x68u8].len());
            }
            assert(seq![0x49u8, 0x6Eu8, 0x74u8] != seq![0x44u8, 0x62u8, 0x6Cu8]) by {
                assert(seq![0x49u8, 0x6Eu8, 0x74u8][0] != seq![0x44u8, 0x62u8, 0x6Cu8][0]);
            }
            assert(seq![0x49u8, 0x6Eu8, 0x74u8] != seq![0x44u8, 0x69u8, 0x63u8, 0x74u8]) by {
                assert(seq![0x49u8, 0x6Eu8, 0x74u8].len() != seq![0x44u8, 0x69u8, 0x63u8, 0x74u8].len());
            }
            assert(seq![0x49u8, 0x6Eu8, 0x74u8] != seq![0x46u8, 0x75u8, 0x6Eu8, 0x63u8]) by {
                assert(seq![0x49u8, 0x6Eu8, 0x74u8].len() != seq![0x46u8, 0x75u8, 0x6Eu8, 0x63u8].len());
            }
            assert(spec_parse_is_type_op(seq![0x49u8, 0x6Eu8, 0x74u8]) == Some(IsTypeOp::TyInt));
        },
        IsTypeOp::TyKeyset => {
            assert(seq![0x4Bu8, 0x65u8, 0x79u8, 0x73u8, 0x65u8, 0x74u8] != seq![0x41u8, 0x72u8, 0x72u8, 0x4Cu8, 0x69u8, 0x6Bu8, 0x65u8]) by {
                assert(seq![0x4Bu8, 0x65u8, 0x79u8, 0x73u8, 0x65u8, 0x74u8].len() != seq![0x41u8, 0x72u8, 0x72u8, 0x4Cu8, 0x69u8, 0x6Bu8, 0x65u8].len());
            }
            assert(seq![0x4Bu8, 0x65u8, 0x79u8, 0x73u8, 0x65u8, 0x74u8] != seq![0x42u8, 0x6Fu8, 0x6Fu8, 0x6Cu8]) by {
                assert(seq![0x4Bu8, 0x65u8, 0x79u8, 0x73u8, 0x65u8, 0x74u8].len() != seq![0x42u8, 0x6Fu8, 0x6Fu8, 0x6Cu8].len());
            }
            assert(seq![0x4Bu8, 0x65u8, 0x79u8, 0x73u8, 0x65u8, 0x74u8] != seq![0x43u8, 0x6Cu8, 0x61u8, 0x73u8, 0x73u8]) by {
                assert(seq![0x4Bu8, 0x65u8, 0x79u8, 0x73u8, 0x65u8, 0x74u8].len() != seq![0x43u8, 0x6Cu8, 0x61u8, 0x73u8, 0x73u8].len());
            }
            assert(seq![0x4Bu8, 0x65u8, 0x79u8, 0x73u8, 0x65u8, 0x74u8] != seq![0x43u8, 0x6Cu8, 0x73u8, 0x4Du8, 0x65u8, 0x74u8, 0x68u8]) by {
                assert(seq![0x4Bu8, 0x65u8, 0x79u8, 0x73u8, 0x65u8, 0x74u8].len() != seq![0x43u8, 0x6Cu8, 0x73u8, 0x4Du8, 0x65u8, 0x74u8, 0x68u8].len());
            }
            assert(seq![0x4Bu8, 0x65u8, 0x79u8, 0x73u8, 0x65u8, 0x74u8] != seq![0x44u8, 0x62u8, 0x6Cu8]) by {
                assert(seq![0x4Bu8, 0x65u8, 0x79u8, 0x73u8, 0x65u8, 0x74u8].len() != seq![0x44u8, 0x62u8, 0x6Cu8].len());
            }
            assert(seq![0x4Bu8, 0x65u8, 0x79u8, 0x73u8, 0x65u8, 0x74u8] != seq![0x44u8, 0x69u8, 0x63u8, 0x74u8]) by {
                assert(seq![0x4Bu8, 0x65u8, 0x79u8, 0x73u8, 0x65u8, 0x74u8].len() != seq![0x44u8, 0x69u8, 0x63u8, 0x74u8].len());
            }
            assert(seq![0x4Bu8, 0x65u8, 0x79u8, 0x73u8, 0x65u8, 0x74u8] != seq![0x46u8, 0x75u8, 0x6Eu8, 0x63u8]) by {
                assert(seq![0x4Bu8, 0x65u8, 0x79u8, 0x73u8, 0x65u8, 0x74u8].len() != seq![0x46u8, 0x75u8, 0x6Eu8, 0x63u8].len());
            }
            assert(seq![0x4Bu8, 0x65u8, 0x79u8, 0x73u8, 0x65u8, 0x74u8] != seq![0x49u8, 0x6Eu8, 0x74u8]) by {
                assert(seq![0x4Bu8, 0x65u8, 0x79u8, 0x73u8, 0x65u8, 0x74u8].len() != seq![0x49u8, 0x6Eu8, 0x74u8].len());
            }
            assert(spec_parse_is_type_op(seq![0x4Bu8, 0x65u8, 0x79u8, 0x73u8, 0x65u8, 0x74u8]) == Some(IsTypeOp::TyKeyset));
        },
        IsTypeOp::LegacyArrLike => {
            assert(seq![0x4Cu8, 0x65u8, 0x67u8, 0x61u8, 0x63u8, 0x79u8, 0x41u8, 0x72u8, 0x72u8, 0x4Cu8, 0x69u8, 0x6Bu8, 0x65u8] != seq![0x41u8, 0x72u8, 0x72u8, 0x4Cu8, 0x69u8, 0x6Bu8, 0x65u8]) by {
                assert(seq![0x4Cu8, 0x65u8, 0x67u8, 0x61u8, 0x63u8, 0x79u8, 0x41u8, 0x72u8, 0x72u8, 0x4Cu8, 0x69u8, 0x6Bu8, 0x65u8].len() != seq![0x41u8, 0x72u8, 0x72u8, 0x4Cu8, 0x69u8, 0x6Bu8, 0x65u8].len());
            }
            assert(seq![0x4Cu8, 0x65u8, 0x67u8, 0x61u8, 0x63u8, 0x79u8, 0x41u8, 0x72u8, 0x72u8, 0x4Cu8, 0x69u8, 0x6Bu8, 0x65u8] != seq![0x42u8, 0x6Fu8, 0x6Fu8, 0x6Cu8]) by {
                assert(seq![0x4Cu8, 0x65u8, 0x67u8, 0x61u8, 0x63u8, 0x79u8, 0x41u8, 0x72u8, 0x72u8, 0x4Cu8, 0x69u8, 0x6Bu8, 0x65u8].len() != seq![0x42u8, 0x6Fu8, 0x6Fu8, 0x6Cu8].len());
            }
            assert(seq![0x4Cu8, 0x65u8, 0x67u8, 0x61u8, 0x63u8, 0x79u8, 0x41u8, 0x72u8, 0x72u8, 0x4Cu8, 0x69u8, 0x6Bu8, 0x65u8] != seq![0x43u8, 0x6Cu8, 0x61u8, 0x73u8, 0x73u8]) by {
                assert(seq![0x4Cu8, 0x65u8, 0x67u8, 0x61u8, 0x63u8, 0x79u8, 0x41u8, 0x72u8, 0x72u8, 0x4Cu8, 0x69u8, 0x6Bu8, 0x65u8].len() != seq![0x43u8, 0x6Cu8, 0x61u8, 0x73u8, 0x73u8].len());
            }
            assert(seq![0x4Cu8, 0x65u8, 0x67u8, 0x61u8, 0x63u8, 0x79u8, 0x41u8, 0x72u8, 0x72u8, 0x4Cu8, 0x69u8, 0x6Bu8, 0x65u8] != seq![0x43u8, 0x6Cu8, 0x73u8, 0x4Du8, 0x65u8, 0x74u8, 0x68u8]) by {
                assert(seq![0x4Cu8, 0x65u8, 0x67u8, 0x61u8, 0x63u8, 0x79u8, 0x41u8, 0x72u8, 0x72u8, 0x4Cu8, 0x69u8, 0x6Bu8, 0x65u8].len() != seq![0x43u8, 0x6Cu8, 0x73u8, 0x4Du8, 0x65u8, 0x74u8, 0x68u8].len());
            }
            assert(seq![0x4Cu8, 0x65u8, 0x67u8, 0x61u8, 0x63u8, 0x79u8, 0x41u8, 0x72u8, 0x72u8, 0x4Cu8, 0x69u8, 0x6Bu8, 0x65u8] != seq![0x44u8, 0x62u8, 0x6Cu8]) by {
                assert(seq![0x4Cu8, 0x65u8, 0x67u8, 0x61u8, 0x63u8, 0x79u8, 0x41u8, 0x72u8, 0x72u8, 0x4Cu8, 0x69u8, 0x6Bu8, 0x65u8].len() != seq![0x44u8, 0x62u8, 0x6Cu8].len());
            }
            assert(seq![0x4Cu8, 0x65u8, 0x67u8, 0x61u8, 0x63u8, 0x79u8, 0x41u8, 0x72u8, 0x72u8, 0x4Cu8, 0x69u8, 0x6Bu8, 0x65u8] != seq![0x44u8, 0x69u8, 0x63u8, 0x74u8]) by {
                assert(seq![0x4Cu8, 0x65u8, 0x67u8, 0x61u8, 0x63u8, 0x79u8, 0x41u8, 0x72u8, 0x72u8, 0x4Cu8, 0x69u8, 0x6Bu8, 0x65u8].len() != seq![0x44u8, 0x69u8, 0x63u8, 0x74u8].len());
            }
            assert(seq![0x4Cu8, 0x65u8, 0x67u8, 0x61u8, 0x63u8, 0x79u8, 0x41u8, 0x72u8, 0x72u8, 0x4Cu8, 0x69u8, 0x6Bu8, 0x65u8] != seq![0x46u8, 0x75u8, 0x6Eu8, 0x63u8]) by {
                assert(seq![0x4Cu8, 0x65u8, 0x67u8, 0x61u8, 0x63u8, 0x79u8, 0x41u8, 0x72u8, 0x72u8, 0x4Cu8, 0x69u8, 0x6Bu8, 0x65u8].len() != seq![0x46u8, 0x75u8, 0x6Eu8, 0x63u8].len());
            }
            assert(seq![0x4Cu8, 0x65u8, 0x67u8, 0x61u8, 0x63u8, 0x79u8, 0x41u8, 0x72u8, 0x72u8, 0x4Cu8, 0x69u8, 0x6Bu8, 0x65u8] != seq![0x49u8, 0x6Eu8, 0x74u8]) by {
                assert(seq![0x4Cu8, 0x65u8, 0x67u8, 0x61u8, 0x63u8, 0x79u8, 0x41u8, 0x72u8, 0x72u8, 0x4Cu8, 0x69u8, 0x6Bu8, 0x65u8].len() != seq![0x49u8, 0x6Eu8, 0x74u8].len());
            }
            assert(seq![0x4Cu8, 0x65u8, 0x67u8, 0x61u8, 0x63u8, 0x79u8, 0x41u8, 0x72u8, 0x72u8, 0x4Cu8, 0x69u8, 0x6Bu8, 0x65u8] != seq![0x4Bu8, 0x65u8, 0x79u8, 0x73u8, 0x65u8, 0x74u8]) by {
                assert(seq![0x4Cu8, 0x65u8, 0x67u8, 0x61u8, 0x63u8, 0x79u8, 0x41u8, 0x72u8, 0x72u8, 0x4Cu8, 0x69u8, 0x6Bu8, 0x65u8].len() != seq![0x4Bu8, 0x65u8, 0x79u8, 0x73u8, 0x65u8, 0x74u8].len());
            }
            assert(spec_parse_is_type_op(seq![0x4Cu8, 0x65u8, 0x67u8, 0x61u8, 0x63u8, 0x79u8, 0x41u8, 0x72u8, 0x72u8, 0x4Cu8, 0x69u8, 0x6Bu8, 0x65u8]) == Some(IsTypeOp::LegacyArrLike));
        },
        IsTypeOp::TyNull => {
            assert(seq![0x4Eu8, 0x75u8, 0x6Cu8, 0x6Cu8] != seq![0x41u8, 0x72u8, 0x72u8, 0x4Cu8, 0x69u8, 0x6Bu8, 0x65u8]) by {
                assert(seq![0x4Eu8, 0x75u8, 0x6Cu8, 0x6Cu8].len() != seq![0x41u8, 0x72u8, 0x72u8, 0x4Cu8, 0x69u8, 0x6Bu8, 0x65u8].len());
            }
            assert(seq![0x4Eu8, 0x75u8, 0x6Cu8, 0x6Cu8] != seq![0x42u8, 0x6Fu8, 0x6Fu8, 0x6Cu8]) by {
                assert(seq![0x4Eu8, 0x75u8, 0x6Cu8, 0x6Cu8][0] != seq![0x42u8, 0x6Fu8, 0x6Fu8, 0x6Cu8][0]);
            }
            assert(seq![0x4Eu8, 0x75u8, 0x6Cu8, 0x6Cu8] != seq![0x43u8, 0x6Cu8, 0x61u8, 0x73u8, 0x73u8]) by {
                assert(seq![0x4Eu8, 0x75u8, 0x6Cu8, 0x6Cu8].len() != seq![0x43u8, 0x6Cu8, 0x61u8, 0x73u8, 0x73u8].len());
            }
            assert(seq![0x4Eu8, 0x75u8, 0x6Cu8, 0x6Cu8] != seq![0x43u8, 0x6Cu8, 0x73u8, 0x4Du8, 0x65u8, 0x74u8, 0x68u8]) by {
                assert(seq![0x4Eu8, 0x75u8, 0x6Cu8, 0x6Cu8].len() != seq![0x43u8, 0x6Cu8, 0x73u8, 0x4Du8, 0x65u8, 0x74u8, 0x68u8].len());
            }
            assert(seq![0x4Eu8, 0x75u8, 0x6Cu8, 0x6Cu8] != seq![0x44u8, 0x62u8, 0x6Cu8]) by {
                assert(seq![0x4Eu8, 0x75u8, 0x6Cu8, 0x6Cu8].len() != seq![0x44u8, 0x62u8, 0x6Cu8].len());
            }
            assert(seq![0x4Eu8, 0x75u8, 0x6Cu8, 0x6Cu8] != seq![0x44u8, 0x69u8, 0x63u8, 0x74u8]) by {
                assert(seq![0x4Eu8, 0x75u8, 0x6Cu8, 0x6Cu8][0] != seq![0x44u8, 0x69u8, 0x63u8, 0x74u8][0]);
            }
            assert(seq![0x4Eu8, 0x75u8, 0x6Cu8, 0x6Cu8] != seq![0x46u8, 0x75u8, 0x6Eu8, 0x63u8]) by {
                assert(seq![0x4Eu8, 0x75u8, 0x6Cu8, 0x6Cu8][0] != seq![0x46u8, 0x75u8, 0x6Eu8, 0x63u8][0]);
            }
            assert(seq![0x4Eu8, 0x75u8, 0x6Cu8, 0x6Cu8] != seq![0x49u8, 0x6Eu8, 0x74u8]) by {
                assert(seq![0x4Eu8, 0x75u8, 0x6Cu8, 0x6Cu8].len() != seq![0x49u8, 0x6Eu8, 0x74u8].len());
            }
            assert(seq![0x4Eu8, 0x75u8, 0x6Cu8, 0x6Cu8] != seq![0x4Bu8, 0x65u8, 0x79u8, 0x73u8, 0x65u8, 0x74u8]) by {
                assert(seq![0x4Eu8, 0x75u8, 0x6Cu8, 0x6Cu8].len() != seq![0x4Bu8, 0x65u8, 0x79u8, 0x73u8, 0x65u8, 0x74u8].len());
            }
            assert(seq![0x4Eu8, 0x75u8, 0x6Cu8, 0x6Cu8] != seq![0x4Cu8, 0x65u8, 0x67u8, 0x61u8, 0x63u8, 0x79u8, 0x41u8, 0x72u8, 0x72u8, 0x4Cu8, 0x69u8, 0x6Bu8, 0x65u8]) by {
                assert(seq![0x4Eu8, 0x75u8, 0x6Cu8, 0x6Cu8].len() != seq![0x4Cu8, 0x65u8, 0x67u8, 0x61u8, 0x63u8, 0x79u8, 0x41u8, 0x72u8, 0x72u8, 0x4Cu8, 0x69u8, 0x6Bu8, 0x65u8].len());
            }
            assert(spec_parse_is_type_op(seq![0x4Eu8, 0x75u8, 0x6Cu8, 0x6Cu8]) == Some(IsTypeOp::TyNull));
        },
        IsTypeOp::Obj => {
            assert(seq![0x4Fu8, 0x62u8, 0x6Au8] != seq![0x41u8, 0x72u8, 0x72u8, 0x4Cu8, 0x69u8, 0x6Bu8, 0x65u8]) by {
                assert(seq![0x4Fu8, 0x62u8, 0x6Au8].len() != seq![0x41u8, 0x72u8, 0x72u8, 0x4Cu8, 0x69u8, 0x6Bu8, 0x65u8].len());
            }
            assert(seq![0x4Fu8, 0x62u8, 0x6Au8] != seq![0x42u8, 0x6Fu8, 0x6Fu8, 0x6Cu8]) by {
                assert(seq![0x4Fu8, 0x62u8, 0x6Au8].len() != seq![0x42u8, 0x6Fu8, 0x6Fu8, 0x6Cu8].len());
            }
            assert(seq![0x4Fu8, 0x62u8, 0x6Au8] != seq![0x43u8, 0x6Cu8, 0x61u8, 0x73u8, 0x73u8]) by {
                assert(seq![0x4Fu8, 0x62u8, 0x6Au8].len() != seq![0x43u8, 0x6Cu8, 0x61u8, 0x73u8, 0x73u8].len());
            }
            assert(seq![0x4Fu8, 0x62u8, 0x6Au8] != seq![0x43u8, 0x6Cu8, 0x73u8, 0x4Du8, 0x65u8, 0x74u8, 0x68u8]) by {
                assert(seq![0x4Fu8, 0x62u8, 0x6Au8].len() != seq![0x43u8, 0x6Cu8, 0x73u8, 0x4Du8, 0x65u8, 0x74u8, 0x68u8].len());
            }
            assert(seq![0x4Fu8, 0x62u8, 0x6Au8] != seq![0x44u8, 0x62u8, 0x6Cu8]) by {
                assert(seq![0x4Fu8, 0x62u8, 0x6Au8][0] != seq![0x44u8, 0x62u8, 0x6Cu8][0]);
            }
            assert(seq![0x4Fu8, 0x62u8, 0x6Au8] != seq![0x44u8, 0x69u8, 0x63u8, 0x74u8]) by {
                assert(seq![0x4Fu8, 0x62u8, 0x6Au8].len() != seq![0x44u8, 0x69u8, 0x63u8, 0x74u8].len());
            }
            assert(seq![0x4Fu8, 0x62u8, 0x6Au8] != seq![0x46u8, 0x75u8, 0x6Eu8, 0x63u8]) by {
                assert(seq![0x4Fu8, 0x62u8, 0x6Au8].len() != seq![0x46u8, 0x75u8, 0x6Eu8, 0x63u8].len());
            }
            assert(seq![0x4Fu8, 0x62u8, 0x6Au8] != seq![0x49u8, 0x6Eu8, 0x74u8]) by {
                assert(seq![0x4Fu8, 0x62u8, 0x6Au8][0] != seq![0x49u8, 0x6Eu8, 0x74u8][0]);
            }
            assert(seq![0x4Fu8, 0x62u8, 0x6Au8] != seq![0x4Bu8, 0x65u8, 0x79u8, 0x73u8, 0x65u8, 0x74u8]) by {
                assert(seq![0x4Fu8, 0x62u8, 0x6Au8].len() != seq![0x4Bu8, 0x65u8, 0x79u8, 0x73u8, 0x65u8, 0x74u8].len());
            }
            assert(seq![0x4Fu8, 0x62u8, 0x6Au8] != seq![0x4Cu8, 0x65u8, 0x67u8, 0x61u8, 0x63u8, 0x79u8, 0x41u8, 0x72u8, 0x72u8, 0x4Cu8, 0x69u8, 0x6Bu8, 0x65u8]) by {
                assert(seq![0x4Fu8, 0x62u8, 0x6Au8].len() != seq![0x4Cu8, 0x65u8, 0x67u8, 0x61u8, 0x63u8, 0x79u8, 0x41u8, 0x72u8, 0x72u8, 0x4Cu8, 0x69u8, 0x6Bu8, 0x65u8].len());
            }
            assert(seq![0x4Fu8, 0x62u8, 0x6Au8] != seq![0x4Eu8, 0x75u8, 0x6Cu8, 0x6Cu8]) by {
                assert(seq![0x4Fu8, 0x62u8, 0x6Au8].len() != seq![0x4Eu8, 0x75u8, 0x6Cu8, 0x6Cu8].len());
            }
            assert(spec_parse_is_type_op(seq![0x4Fu8, 0x62u8, 0x6Au8]) == Some(IsTypeOp::Obj));
        },
        IsTypeOp::Res => {
            assert(seq![0x52u8, 0x65u8, 0x73u8] != seq![0x41u8, 0x72u8, 0x72u8, 0x4Cu8, 0x69u8, 0x6Bu8, 0x65u8]) by {
                assert(seq![0x52u8, 0x65u8, 0x73u8].len() != seq![0x41u8, 0x72u8, 0x72u8, 0x4Cu8, 0x69u8, 0x6Bu8, 0x65u8].len());
            }
            assert(seq![0x52u8, 0x65u8, 0x73u8] != seq![0x42u8, 0x6Fu8, 0x6Fu8, 0x6Cu8]) by {
                assert(seq![0x52u8, 0x65u8, 0x73u8].len() != seq![0x42u8, 0x6Fu8, 0x6Fu8, 0x6Cu8].len());
            }
            assert(seq![0x52u8, 0x65u8, 0x73u8] != seq![0x43u8, 0x6Cu8, 0x61u8, 0x73u8, 0x73u8]) by {
                assert(seq![0x52u8, 0x65u8, 0x73u8].len() != seq![0x43u8, 0x6Cu8, 0x61u8, 0x73u8, 0x73u8].len());
            }
            assert(seq![0x52u8, 0x65u8, 0x73u8] != seq![0x43u8, 0x6Cu8, 0x73u8, 0x4Du8, 0x65u8, 0x74u8, 0x68u8]) by {
                assert(seq![0x52u8, 0x65u8, 0x73u8].len() != seq![0x43u8, 0x6Cu8, 0x73u8, 0x4Du8, 0x65u8, 0x74u8, 0x68u8].len());
            }
            assert(seq![0x52u8, 0x65u8, 0x73u8] != seq![0x44u8, 0x62u8, 0x6Cu8]) by {
                assert(seq![0x52u8, 0x65u8, 0x73u8][0] != seq![0x44u8, 0x62u8, 0x6Cu8][0]);
            }
            assert(seq![0x52u8, 0x65u8, 0x73u8] != seq![0x44u8, 0x69u8, 0x63u8, 0x74u8]) by {
                assert(seq![0x52u8, 0x65u8, 0x73u8].len() != seq![0x44u8, 0x69u8, 0x63u8, 0x74u8].len());
            }
            assert(seq![0x52u8, 0x65u8, 0x73u8] != seq![0x46u8, 0x75u8, 0x6Eu8, 0x63u8]) by {
                assert(seq![0x52u8, 0x65u8, 0x73u8].len() != seq![0x46u8, 0x75u8, 0x6Eu8, 0x63u8].len());
            }
            assert(seq![0x52u8, 0x65u8, 0x73u8] != seq![0x49u8, 0x6Eu8, 0x74u8]) by {
                assert(seq![0x52u8, 0x65u8, 0x73u8][0] != seq![0x49u8, 0x6Eu8, 0x74u8][0]);
            }
            assert(seq![0x52u8, 0x65u8, 0x73u8] != seq![0x4Bu8, 0x65u8, 0x79u8, 0x73u8, 0x65u8, 0x74u8]) by {
                assert(seq![0x52u8, 0x65u8, 0x73u8].len() != seq![0x4Bu8, 0x65u8, 0x79u8, 0x73u8, 0x65u8, 0x74u8].len());
            }
            assert(seq![0x52u8, 0x65u8, 0x73u8] != seq![0x4Cu8, 0x65u8, 0x67u8, 0x61u8, 0x63u8, 0x79u8, 0x41u8, 0x72u8, 0x72u8, 0x4Cu8, 0x69u8, 0x6Bu8, 0x65u8]) by {
                assert(seq![0x52u8, 0x65u8, 0x73u8].len() != seq![0x4Cu8, 0x65u8, 0x67u8, 0x61u8, 0x63u8, 0x79u8, 0x41u8, 0x72u8, 0x72u8, 0x4Cu8, 0x69u8, 0x6Bu8, 0x65u8].len());
            }
            assert(seq![0x52u8, 0x65u8, 0x73u8] != seq![0x4Eu8, 0x75u8, 0x6Cu8, 0x6Cu8]) by {
                assert(seq![0x52u8, 0x65u8, 0x73u8].len() != seq![0x4Eu8, 0x75u8, 0x6Cu8, 0x6Cu8].len());
            }
            assert(seq![0x52u8, 0x65u8, 0x73u8] != seq![0x4Fu8, 0x62u8, 0x6Au8]) by {
                assert(seq![0x52u8, 0x65u8, 0x73u8][0] != seq![0x4Fu8, 0x62u8, 0x6Au8][0]);
            }
            assert(spec_parse_is_type_op(seq![0x52u8, 0x65u8, 0x73u8]) == Some(IsTypeOp::Res));
        },
        IsTypeOp::Scalar => {
            assert(seq![0x53u8, 0x63u8, 0x61u8, 0x6Cu8, 0x61u8, 0x72u8] != seq![0x41u8, 0x72u8, 0x72u8, 0x4Cu8, 0x69u8, 0x6Bu8, 0x65u8]) by {
                assert(seq![0x53u8, 0x63u8, 0x61u8, 0x6Cu8, 0x61u8, 0x72u8].len() != seq![0x41u8, 0x72u8, 0x72u8, 0x4Cu8, 0x69u8, 0x6Bu8, 0x65u8].len());
            }
            assert(seq![0x53u8, 0x63u8, 0x61u8, 0x6Cu8, 0x61u8, 0x72u8] != seq![0x42u8, 0x6Fu8, 0x6Fu8, 0x6Cu8]) by {
                assert(seq![0x53u8, 0x63u8, 0x61u8, 0x6Cu8, 0x61u8, 0x72u8].len() != seq![0x42u8, 0x6Fu8, 0x6Fu8, 0x6Cu8].len());
            }
            assert(seq![0x53u8, 0x63u8, 0x61u8, 0x6Cu8, 0x61u8, 0x72u8] != seq![0x43u8, 0x6Cu8, 0x61u8, 0x73u8, 0x73u8]) by {
                assert(seq![0x53u8, 0x63u8, 0x61u8, 0x6Cu8, 0x61u8, 0x72u8].len() != seq![0x43u8, 0x6Cu8, 0x61u8, 0x73u8, 0x73u8].len());
            }
            assert(seq![0x53u8, 0x63u8, 0x61u8, 0x6Cu8, 0x61u8, 0x72u8] != seq![0x43u8, 0x6Cu8, 0x73u8, 0x4Du8, 0x65u8, 0x74u8, 0x68u8]) by {
                assert(seq![0x53u8, 0x63u8, 0x61u8, 0x6Cu8, 0x61u8, 0x72u8].len() != seq![0x43u8, 0x6Cu8, 0x73u8, 0x4Du8, 0x65u8, 0x74u8, 0x68u8].len());
            }
            assert(seq![0x53u8, 0x63u8, 0x61u8, 0x6Cu8, 0x61u8, 0x72u8] != seq![0x44u8, 0x62u8, 0x6Cu8]) by {
                assert(seq![0x53u8, 0x63u8, 0x61u8, 0x6Cu8, 0x61u8, 0x72u8].len() != seq![0x44u8, 0x62u8, 0x6Cu8].len());
            }
            assert(seq![0x53u8, 0x63u8, 0x61u8, 0x6Cu8, 0x61u8, 0x72u8] != seq![0x44u8, 0x69u8, 0x63u8, 0x74u8]) by {
                assert(seq![0x53u8, 0x63u8, 0x61u8, 0x6Cu8, 0x61u8, 0x72u8].len() != seq![0x44u8, 0x69u8, 0x63u8, 0x74u8].len());
            }
            assert(seq![0x53u8, 0x63u8, 0x61u8, 0x6Cu8, 0x61u8, 0x72u8] != seq![0x46u8, 0x75u8, 0x6Eu8, 0x63u8]) by {
                assert(seq![0x53u8, 0x63u8, 0x61u8, 0x6Cu8, 0x61u8, 0x72u8].len() != seq![0x46u8, 0x75u8, 0x6Eu8, 0x63u8].len());
            }
            assert(seq![0x53u8, 0x63u8, 0x61u8, 0x6Cu8, 0x61u8, 0x72u8] != seq![0x49u8, 0x6Eu8, 0x74u8]) by {
                assert(seq![0x53u8, 0x63u8, 0x61u8, 0x6Cu8, 0x61u8, 0x72u8].len() != seq![0x49u8, 0x6Eu8, 0x74u8].len());
            }
            assert(seq![0x53u8, 0x63u8, 0x61u8, 0x6Cu8, 0x61u8, 0x72u8] != seq![0x4Bu8, 0x65u8, 0x79u8, 0x73u8, 0x65u8, 0x74u8]) by {
                assert(seq![0x53u8, 0x63u8, 0x61u8, 0x6Cu8, 0x61u8, 0x72u8][0] != seq![0x4Bu8, 0x65u8, 0x79u8, 0x73u8, 0x65u8, 0x74u8][0]);
            }
            assert(seq![0x53u8, 0x63u8, 0x61u8, 0x6Cu8, 0x61u8, 0x72u8] != seq![0x4Cu8, 0x65u8, 0x67u8, 0x61u8, 0x63u8, 0x79u8, 0x41u8, 0x72u8, 0x72u8, 0x4Cu8, 0x69u8, 0x6Bu8, 0x65u8]) by {
                assert(seq![0x53u8, 0x63u8, 0x61u8, 0x6Cu8, 0x61u8, 0x72u8].len() != seq![0x4Cu8, 0x65u8, 0x67u8, 0x61u8, 0x63u8, 0x79u8, 0x41u8, 0x72u8, 0x72u8, 0x4Cu8, 0x69u8, 0x6Bu8, 0x65u8].len());
            }
            assert(seq![0x53u8, 0x63u8, 0x61u8, 0x6Cu8, 0x61u8, 0x72u8] != seq![0x4Eu8, 0x75u8, 0x6Cu8, 0x6Cu8]) by {
                assert(seq![0x53u8, 0x63u8, 0x61u8, 0x6Cu8, 0x61u8, 0x72u8].len() != seq![0x4Eu8, 0x75u8, 0x6Cu8, 0x6Cu8].len());
            }
            assert(seq![0x53u8, 0x63u8, 0x61u8, 0x6Cu8, 0x61u8, 0x72u8] != seq![0x4Fu8, 0x62u8, 0x6Au8]) by {
                assert(seq![0x53u8, 0x63u8, 0x61u8, 0x6Cu8, 0x61u8, 0x72u8].len() != seq![0x4Fu8, 0x62u8, 0x6Au8].len());
            }
            assert(seq![0x53u8, 0x63u8, 0x61u8, 0x6Cu8, 0x61u8, 0x72u8] != seq![0x52u8, 0x65u8, 0x73u8]) by {
                assert(seq![0x53u8, 0x63u8, 0x61u8, 0x6Cu8, 0x61u8, 0x72u8].len() != seq![0x52u8, 0x65u8, 0x73u8].len());
            }
            assert(spec_parse_is_type_op(seq![0x53u8, 0x63u8, 0x61u8, 0x6Cu8, 0x61u8, 0x72u8]) == Some(IsTypeOp::Scalar));
        },
        IsTypeOp::TyStr => {
            assert(seq![0x53u8, 0x74u8, 0x72u8] != seq![0x41u8, 0x72u8, 0x72u8, 0x4Cu8, 0x69u8, 0x6Bu8, 0x65u8]) by {
                assert(seq![0x53u8, 0x74u8, 0x72u8].len() != seq![0x41u8, 0x72u8, 0x72u8, 0x4Cu8, 0x69u8, 0x6Bu8, 0x65u8].len());
            }
            assert(seq![0x53u8, 0x74u8, 0x72u8] != seq![0x42u8, 0x6Fu8, 0x6Fu8, 0x6Cu8]) by {
                assert(seq![0x53u8, 0x74u8, 0x72u8].len() != seq![0x42u8, 0x6Fu8, 0x6Fu8, 0x6Cu8].len());
            }
            assert(seq![0x53u8, 0x74u8, 0x72u8] != seq![0x43u8, 0x6Cu8, 0x61u8, 0x73u8, 0x73u8]) by {
                assert(seq![0x53u8, 0x74u8, 0x72u8].len() != seq![0x43u8, 0x6Cu8, 0x61u8, 0x73u8, 0x73u8].len());
            }
            assert(seq![0x53u8, 0x74u8, 0x72u8] != seq![0x43u8, 0x6Cu8, 0x73u8, 0x4Du8, 0x65u8, 0x74u8, 0x68u8]) by {
                assert(seq![0x53u8, 0x74u8, 0x72u8].len() != seq![0x43u8, 0x6Cu8, 0x73u8, 0x4Du8, 0x65u8, 0x74u8, 0x68u8].len());
            }
            assert(seq![0x53u8, 0x74u8, 0x72u8] != seq![0x44u8, 0x62u8, 0x6Cu8]) by {
                assert(seq![0x53u8, 0x74u8, 0x72u8][0] != seq![0x44u8, 0x62u8, 0x6Cu8][0]);
            }
            assert(seq![0x53u8, 0x74u8, 0x72u8] != seq![0x44u8, 0x69u8, 0x63u8, 0x74u8]) by {
                assert(seq![0x53u8, 0x74u8, 0x72u8].len() != seq![0x44u8, 0x69u8, 0x63u8, 0x74u8].len());
            }
            assert(seq![0x53u8, 0x74u8, 0x72u8] != seq![0x46u8, 0x75u8, 0x6Eu8, 0x63u8]) by {
                assert(seq![0x53u8, 0x74u8, 0x72u8].len() != seq![0x46u8, 0x75u8, 0x6Eu8, 0x63u8].len());
            }
            assert(seq![0x53u8, 0x74u8, 0x72u8] != seq![0x49u8, 0x6Eu8, 0x74u8]) by {
                assert(seq![0x53u8, 0x74u8, 0x72u8][0] != seq![0x49u8, 0x6Eu8, 0x74u8][0]);
            }
            assert(seq![0x53u8, 0x74u8, 0x72u8] != seq![0x4Bu8, 0x65u8, 0x79u8, 0x73u8, 0x65u8, 0x74u8]) by {
                assert(seq![0x53u8, 0x74u8, 0x72u8].len() != seq![0x4Bu8, 0x65u8, 0x79u8, 0x73u8, 0x65u8, 0x74u8].len());
            }
            assert(seq![0x53u8, 0x74u8, 0x72u8] != seq![0x4Cu8, 0x65u8, 0x67u8, 0x61u8, 0x63u8, 0x79u8, 0x41u8, 0x72u8, 0x72u8, 0x4Cu8, 0x69u8, 0x6Bu8, 0x65u8]) by {
                assert(seq![0x53u8, 0x74u8, 0x72u8].len() != seq![0x4Cu8, 0x65u8, 0x67u8, 0x61u8, 0x63u8, 0x79u8, 0x41u8, 0x72u8, 0x72u8, 0x4Cu8, 0x69u8, 0x6Bu8, 0x65u8].len());
            }
            assert(seq![0x53u8, 0x74u8, 0x72u8] != seq![0x4Eu8, 0x75u8, 0x6Cu8, 0x6Cu8]) by {
                assert(seq![0x53u8, 0x74u8, 0x72u8].len() != seq![0x4Eu8, 0x75u8, 0x6Cu8, 0x6Cu8].len());
            }
            assert(seq![0x53u8, 0x74u8, 0x72u8] != seq![0x4Fu8, 0x62u8, 0x6Au8]) by {
                assert(seq![0x53u8, 0x74u8, 0x72u8][0] != seq![0x4Fu8, 0x62u8, 0x6Au8][0]);
            }
            assert(seq![0x53u8, 0x74u8, 0x72u8] != seq![0x52u8, 0x65u8, 0x73u8]) by {
                assert(seq![0x53u8, 0x74u8, 0x72u8][0] != seq![0x52u8, 0x65u8, 0x73u8][0]);
            }
            assert(seq![0x53u8, 0x74u8, 0x72u8] != seq![0x53u8, 0x63u8, 0x61u8, 0x6Cu8, 0x61u8, 0x72u8]) by {
                assert(seq![0x53u8, 0x74u8, 0x72u8].len() != seq![0x53u8, 0x63u8, 0x61u8, 0x6Cu8, 0x61u8, 0x72u8].len());
            }
            assert(spec_parse_is_type_op(seq![0x53u8, 0x74u8, 0x72u8]) == Some(IsTypeOp::TyStr));
        },
        IsTypeOp::TyVec => {
            assert(seq![0x56u8, 0x65u8, 0x63u8] != seq![0x41u8, 0x72u8, 0x72u8, 0x4Cu8, 0x69u8, 0x6Bu8, 0x65u8]) by {
                assert(seq![0x56u8, 0x65u8, 0x63u8].len() != seq![0x41u8, 0x72u8, 0x72u8, 0x4Cu8, 0x69u8, 0x6Bu8, 0x65u8].len());
            }
            assert(seq![0x56u8, 0x65u8, 0x63u8] != seq![0x42u8, 0x6Fu8, 0x6Fu8, 0x6Cu8]) by {
                assert(seq![0x56u8, 0x65u8, 0x63u8].len() != seq![0x42u8, 0x6Fu8, 0x6Fu8, 0x6Cu8].len());
            }
            assert(seq![0x56u8, 0x65u8, 0x63u8] != seq![0x43u8, 0x6Cu8, 0x61u8, 0x73u8, 0x73u8]) by {
                assert(seq![0x56u8, 0x65u8, 0x63u8].len() != seq![0x43u8, 0x6Cu8, 0x61u8, 0x73u8, 0x73u8].len());
            }
            assert(seq![0x56u8, 0x65u8, 0x63u8] != seq![0x43u8, 0x6Cu8, 0x73u8, 0x4Du8, 0x65u8, 0x74u8, 0x68u8]) by {
                assert(seq![0x56u8, 0x65u8, 0x63u8].len() != seq![0x43u8, 0x6Cu8, 0x73u8, 0x4Du8, 0x65u8, 0x74u8, 0x68u8].len());
            }
            assert(seq![0x56u8, 0x65u8, 0x63u8] != seq![0x44u8, 0x62u8, 0x6Cu8]) by {
                assert(seq![0x56u8, 0x65u8, 0x63u8][0] != seq![0x44u8, 0x62u8, 0x6Cu8][0]);
            }
            assert(seq![0x56u8, 0x65u8, 0x63u8] != seq![0x44u8, 0x69u8, 0x63u8, 0x74u8]) by {
                assert(seq![0x56u8, 0x65u8, 0x63u8].len() != seq![0x44u8, 0x69u8, 0x63u8, 0x74u8].len());
            }
            assert(seq![0x56u8, 0x65u8, 0x63u8] != seq![0x46u8, 0x75u8, 0x6Eu8, 0x63u8]) by {
                assert(seq![0x56u8, 0x65u8, 0x63u8].len() != seq![0x46u8, 0x75u8, 0x6Eu8, 0x63u8].len());
            }
            assert(seq![0x56u8, 0x65u8, 0x63u8] != seq![0x49u8, 0x6Eu8, 0x74u8]) by {
                assert(seq![0x56u8, 0x65u8, 0x63u8][0] != seq![0x49u8, 0x6Eu8, 0x74u8][0]);
            }
            assert(seq![0x56u8, 0x65u8, 0x63u8] != seq![0x4Bu8, 0x65u8, 0x79u8, 0x73u8, 0x65u8, 0x74u8]) by {
                assert(seq![0x56u8, 0x65u8, 0x63u8].len() != seq![0x4Bu8, 0x65u8, 0x79u8, 0x73u8, 0x65u8, 0x74u8].len());
            }
            assert(seq![0x56u8, 0x65u8, 0x63u8] != seq![0x4Cu8, 0x65u8, 0x67u8, 0x61u8, 0x63u8, 0x79u8, 0x41u8, 0x72u8, 0x72u8, 0x4Cu8, 0x69u8, 0x6Bu8, 0x65u8]) by {
                assert(seq![0x56u8, 0x65u8, 0x63u8].len() != seq![0x4Cu8, 0x65u8, 0x67u8, 0x61u8, 0x63u8, 0x79u8, 0x41u8, 0x72u8, 0x72u8, 0x4Cu8, 0x69u8, 0x6Bu8, 0x65u8].len());
            }
            assert(seq![0x56u8, 0x65u8, 0x63u8] != seq![0x4Eu8, 0x75u8, 0x6Cu8, 0x6Cu8]) by {
                assert(seq![0x56u8, 0x65u8, 0x63u8].len() != seq![0x4Eu8, 0x75u8, 0x6Cu8, 0x6Cu8].len());
            }
            assert(seq![0x56u8, 0x65u8, 0x63u8] != seq![0x4Fu8, 0x62u8, 0x6Au8]) by {
                assert(seq![0x56u8, 0x65u8, 0x63u8][0] != seq![0x4Fu8, 0x62u8, 0x6Au8][0]);
            }
            assert(seq![0x56u8, 0x65u8, 0x63u8] != seq![0x52u8, 0x65u8, 0x73u8]) by {
                assert(seq![0x56u8, 0x65u8, 0x63u8][0] != seq![0x52u8, 0x65u8, 0x73u8][0]);
            }
            assert(seq![0x56u8, 0x65u8, 0x63u8] != seq![0x53u8, 0x63u8, 0x61u8, 0x6Cu8, 0x61u8, 0x72u8]) by {
                assert(seq![0x56u8, 0x65u8, 0x63u8].len() != seq![0x53u8, 0x63u8, 0x61u8, 0x6Cu8, 0x61u8, 0x72u8].len());
            }
            assert(seq![0x56u8, 0x65u8, 0x63u8] != seq![0x53u8, 0x74u8, 0x72u8]) by {
                assert(seq![0x56u8, 0x65u8, 0x63u8][0] != seq![0x53u8, 0x74u8, 0x72u8][0]);
            }
            assert(spec_parse_is_type_op(seq![0x56u8, 0x65u8, 0x63u8]) == Some(IsTypeOp::TyVec));
        },
    }
}

/// Decode one `IsTypeOp` keyword.
pub fn assemble_is_type_op(c: &mut TokenCursor) -> (r: Result<IsTypeOp, ParseError>)
    requires
        old(c).wf(),
    ensures
        final(c).wf(),
        final(c).toks() == old(c).toks(),
        (r is Ok) <==> (old(c).at() < old(c).toks().len() && (match old(c).toks()[old(c).at()] {
            Token::Identifier(b, _) => spec_parse_is_type_op(b@) is Some,
            _ => false,
        })),
        r matches Ok(v) ==> final(c).at() == old(c).at() + 1 && (match old(c).toks()[old(c).at()] {
            Token::Identifier(b, _) => spec_parse_is_type_op(b@) == Some(v),
            _ => false,
        }),
        r matches Err(e) ==> (match e.tok {
            Some(t2) => old(c).at() < old(c).toks().len() && token_den(t2) == token_den(
                old(c).toks()[old(c).at()],
            ) && e.pos == spec_token_pos(old(c).toks()[old(c).at()]),
            Option::None => old(c).at() >= old(c).toks().len() && e.kind
                == ParseErrorKind::UnexpectedEnd,
        }),
{
    let pos = c.here();
    match c.next() {
        Some(Token::Identifier(b, p)) => {
            let p = *p;
            let k_arrlike: [u8; 7] = [0x41, 0x72, 0x72, 0x4C, 0x69, 0x6B, 0x65];
            if bytes_eq(b.as_slice(), k_arrlike.as_slice()) {
                proof {
                    assert(b@ =~= seq![0x41u8, 0x72u8, 0x72u8, 0x4Cu8, 0x69u8, 0x6Bu8, 0x65u8]);
                }
                return Ok(IsTypeOp::ArrLike);
            }
            let k_tybool: [u8; 4] = [0x42, 0x6F, 0x6F, 0x6C];
            if bytes_eq(b.as_slice(), k_tybool.as_slice()) {
                proof {
                    assert(b@ =~= seq![0x42u8, 0x6Fu8, 0x6Fu8, 0x6Cu8]);
                }
                return Ok(IsTypeOp::TyBool);
            }
            let k_tyclass: [u8; 5] = [0x43, 0x6C, 0x61, 0x73, 0x73];
            if bytes_eq(b.as_slice(), k_tyclass.as_slice()) {
                proof {
                    assert(b@ =~= seq![0x43u8, 0x6Cu8, 0x61u8, 0x73u8, 0x73u8]);
                }
                return Ok(IsTypeOp::TyClass);
            }
            let k_clsmeth: [u8; 7] = [0x43, 0x6C, 0x73, 0x4D, 0x65, 0x74, 0x68];
            if bytes_eq(b.as_slice(), k_clsmeth.as_slice()) {
                proof {
                    assert(b@ =~= seq![0x43u8, 0x6Cu8, 0x73u8, 0x4Du8, 0x65u8, 0x74u8, 0x68u8]);
                }
                return Ok(IsTypeOp::ClsMeth);
            }
            let k_dbl: [u8; 3] = [0x44, 0x62, 0x6C];
            if bytes_eq(b.as_slice(), k_dbl.as_slice()) {
                proof {
                    assert(b@ =~= seq![0x44u8, 0x62u8, 0x6Cu8]);
                }
                return Ok(IsTypeOp::Dbl);
            }
            let k_tydict: [u8; 4] = [0x44, 0x69, 0x63, 0x74];
            if bytes_eq(b.as_slice(), k_tydict.as_slice()) {
                proof {
                    assert(b@ =~= seq![0x44u8, 0x69u8, 0x63u8, 0x74u8]);
                }
                return Ok(IsTypeOp::TyDict);
            }
            let k_func: [u8; 4] = [0x46, 0x75, 0x6E, 0x63];
            if bytes_eq(b.as_slice(), k_func.as_slice()) {
                proof {
                    assert(b@ =~= seq![0x46u8, 0x75u8, 0x6Eu8, 0x63u8]);
                }
                return Ok(IsTypeOp::Func);
            }
            let k_tyint: [u8; 3] = [0x49, 0x6E, 0x74];
            if bytes_eq(b.as_slice(), k_tyint.as_slice()) {
                proof {
                    assert(b@ =~= seq![0x49u8, 0x6Eu8, 0x74u8]);
                }
                return Ok(IsTypeOp::TyInt);
            }
            let k_tykeyset: [u8; 6] = [0x4B, 0x65, 0x79, 0x73, 0x65, 0x74];
            if bytes_eq(b.as_slice(), k_tykeyset.as_slice()) {
                proof {
                    assert(b@ =~= seq![0x4Bu8, 0x65u8, 0x79u8, 0x73u8, 0x65u8, 0x74u8]);
                }
                return Ok(IsTypeOp::TyKeyset);
            }
            let k_legacyarrlike: [u8; 13] = [0x4C, 0x65, 0x67, 0x61, 0x63, 0x79, 0x41, 0x72, 0x72, 0x4C, 0x69, 0x6B, 0x65];
            if bytes_eq(b.as_slice(), k_legacyarrlike.as_slice()) {
                proof {
                    assert(b@ =~= seq![0x4Cu8, 0x65u8, 0x67u8, 0x61u8, 0x63u8, 0x79u8, 0x41u8, 0x72u8, 0x72u8, 0x4Cu8, 0x69u8, 0x6Bu8, 0x65u8]);
                }
                return Ok(IsTypeOp::LegacyArrLike);
            }
            let k_tynull: [u8; 4] = [0x4E, 0x75, 0x6C, 0x6C];
            if bytes_eq(b.as_slice(), k_tynull.as_slice()) {
                proof {
                    assert(b@ =~= seq![0x4Eu8, 0x75u8, 0x6Cu8, 0x6Cu8]);
                }
                return Ok(IsTypeOp::TyNull);
            }
            let k_obj: [u8; 3] = [0x4F, 0x62, 0x6A];
            if bytes_eq(b.as_slice(), k_obj.as_slice()) {
                proof {
                    assert(b@ =~= seq![0x4Fu8, 0x62u8, 0x6Au8]);
                }
                return Ok(IsTypeOp::Obj);
            }
            let k_res: [u8; 3] = [0x52, 0x65, 0x73];
            if bytes_eq(b.as_slice(), k_res.as_slice()) {
                proof {
                    assert(b@ =~= seq![0x52u8, 0x65u8, 0x73u8]);
                }
                return Ok(IsTypeOp::Res);
            }
            let k_scalar: [u8; 6] = [0x53, 0x63, 0x61, 0x6C, 0x61, 0x72];
            if bytes_eq(b.as_slice(), k_scalar.as_slice()) {
                proof {
                    assert(b@ =~= seq![0x53u8, 0x63u8, 0x61u8, 0x6Cu8, 0x61u8, 0x72u8]);
                }
                return Ok(IsTypeOp::Scalar);
            }
            let k_tystr: [u8; 3] = [0x53, 0x74, 0x72];
            if bytes_eq(b.as_slice(), k_tystr.as_slice()) {
                proof {
                    assert(b@ =~= seq![0x53u8, 0x74u8, 0x72u8]);
                }
                return Ok(IsTypeOp::TyStr);
            }
            let k_tyvec: [u8; 3] = [0x56, 0x65, 0x63];
            if bytes_eq(b.as_slice(), k_tyvec.as_slice()) {
                proof {
                    assert(b@ =~= seq![0x56u8, 0x65u8, 0x63u8]);
                }
                return Ok(IsTypeOp::TyVec);
            }
            Err(err_ident(ParseErrorKind::UnknownKeyword, b, p))
        },
        Some(t) => Err(err_at(ParseErrorKind::UnexpectedToken, t)),
        Option::None => Err(err_end(pos)),
    }
}

#[derive(Copy, Clone, Debug, PartialEq, Eq, Structural)]
pub enum MOpMode {
    Define,
    InOut,
    ModeNone,
    Unset,
    Warn,
}

/// The keyword that names each variant; the match is exhaustive, so
/// every variant has a table entry.
pub open spec fn spec_m_op_mode_keyword(v: MOpMode) -> Seq<u8> {
    match v {
        MOpMode::Define => seq![0x44u8, 0x65u8, 0x66u8, 0x69u8, 0x6Eu8, 0x65u8],
        MOpMode::InOut => seq![0x49u8, 0x6Eu8, 0x4Fu8, 0x75u8, 0x74u8],
        MOpMode::ModeNone => seq![0x4Eu8, 0x6Fu8, 0x6Eu8, 0x65u8],
        MOpMode::Unset => seq![0x55u8, 0x6Eu8, 0x73u8, 0x65u8, 0x74u8],
        MOpMode::Warn => seq![0x57u8, 0x61u8, 0x72u8, 0x6Eu8],
    }
}

/// The variant a keyword names, if any.
pub open spec fn spec_parse_m_op_mode(b: Seq<u8>) -> Option<MOpMode> {
    if b == seq![0x44u8, 0x65u8, 0x66u8, 0x69u8, 0x6Eu8, 0x65u8] {
        Some(MOpMode::Define)
    } else if b == seq![0x49u8, 0x6Eu8, 0x4Fu8, 0x75u8, 0x74u8] {
        Some(MOpMode::InOut)
    } else if b == seq![0x4Eu8, 0x6Fu8, 0x6Eu8, 0x65u8] {
        Some(MOpMode::ModeNone)
    } else if b == seq![0x55u8, 0x6Eu8, 0x73u8, 0x65u8, 0x74u8] {
        Some(MOpMode::Unset)
    } else if b == seq![0x57u8, 0x61u8, 0x72u8, 0x6Eu8] {
        Some(MOpMode::Warn)
    } else {
        Option::None
    }
}

/// Law: every variant's keyword parses back to that variant, so the
/// table is exhaustive and unambiguous.
pub proof fn lemma_m_op_mode_exhaustive(v: MOpMode)
    ensures
        spec_parse_m_op_mode(spec_m_op_mode_keyword(v)) == Some(v),
{
    match v {
        MOpMode::Define => {
            assert(spec_parse_m_op_mode(seq![0x44u8, 0x65u8, 0x66u8, 0x69u8, 0x6Eu8, 0x65u8]) == Some(MOpMode::Define));
        },
        MOpMode::InOut => {
            assert(seq![0x49u8, 0x6Eu8, 0x4Fu8, 0x75u8, 0x74u8] != seq![0x44u8, 0x65u8, 0x66u8, 0x69u8, 0x6Eu8, 0x65u8]) by {
                assert(seq![0x49u8, 0x6Eu8, 0x4Fu8, 0x75u8, 0x74u8].len() != seq![0x44u8, 0x65u8, 0x66u8, 0x69u8, 0x6Eu8, 0x65u8].len());
            }
            assert(spec_parse_m_op_mode(seq![0x49u8, 0x6Eu8, 0x4Fu8, 0x75u8, 0x74u8]) == Some(MOpMode::InOut));
        },
        MOpMode::ModeNone => {
            assert(seq![0x4Eu8, 0x6Fu8, 0x6Eu8, 0x65u8] != seq![0x44u8, 0x65u8, 0x66u8, 0x69u8, 0x6Eu8, 0x65u8]) by {
                assert(seq![0x4Eu8, 0x6Fu8, 0x6Eu8, 0x65u8].len() != seq![0x44u8, 0x65u8, 0x66u8, 0x69u8, 0x6Eu8, 0x65u8].len());
            }
            assert(seq![0x4Eu8, 0x6Fu8, 0x6Eu8, 0x65u8] != seq![0x49u8, 0x6Eu8, 0x4Fu8, 0x75u8, 0x74u8]) by {
                assert(seq![0x4Eu8, 0x6Fu8, 0x6Eu8, 0x65u8].len() != seq![0x49u8, 0x6Eu8, 0x4Fu8, 0x75u8, 0x74u8].len());
            }
            assert(spec_parse_m_op_mode(seq![0x4Eu8, 0x6Fu8, 0x6Eu8, 0x65u8]) == Some(MOpMode::ModeNone));
        },
        MOpMode::Unset => {
            assert(seq![0x55u8, 0x6Eu8, 0x73u8, 0x65u8, 0x74u8] != seq![0x44u8, 0x65u8, 0x66u8, 0x69u8, 0x6Eu8, 0x65u8]) by {
                assert(seq![0x55u8, 0x6Eu8, 0x73u8, 0x65u8, 0x74u8].len() != seq![0x44u8, 0x65u8, 0x66u8, 0x69u8, 0x6Eu8, 0x65u8].len());
            }
            assert(seq![0x55u8, 0x6Eu8, 0x73u8, 0x65u8, 0x74u8] != seq![0x49u8, 0x6Eu8, 0x4Fu8, 0x75u8, 0x74u8]) by {
                assert(seq![0x55u8, 0x6Eu8, 0x73u8, 0x65u8, 0x74u8][0] != seq![0x49u8, 0x6Eu8, 0x4Fu8, 0x75u8, 0x74u8][0]);
            }
            assert(seq![0x55u8, 0x6Eu8, 0x73u8, 0x65u8, 0x74u8] != seq![0x4Eu8, 0x6Fu8, 0x6Eu8, 0x65u8]) by {
                assert(seq![0x55u8, 0x6Eu8, 0x73u8, 0x65u8, 0x74u8].len() != seq![0x4Eu8, 0x6Fu8, 0x6Eu8, 0x65u8].len());
            }
            assert(spec_parse_m_op_mode(seq![0x55u8, 0x6Eu8, 0x73u8, 0x65u8, 0x74u8]) == Some(MOpMode::Unset));
        },
        MOpMode::Warn => {
            assert(seq![0x57u8, 0x61u8, 0x72u8, 0x6Eu8] != seq![0x44u8, 0x65u8, 0x66u8, 0x69u8, 0x6Eu8, 0x65u8]) by {
                assert(seq![0x57u8, 0x61u8, 0x72u8, 0x6Eu8].len() != seq![0x44u8, 0x65u8, 0x66u8, 0x69u8, 0x6Eu8, 0x65u8].len());
            }
            assert(seq![0x57u8, 0x61u8, 0x72u8, 0x6Eu8] != seq![0x49u8, 0x6Eu8, 0x4Fu8, 0x75u8, 0x74u8]) by {
                assert(seq![0x57u8, 0x61u8, 0x72u8, 0x6Eu8].len() != seq![0x49u8, 0x6Eu8, 0x4Fu8, 0x75u8, 0x74u8].len());
            }
            assert(seq![0x57u8, 0x61u8, 0x72u8, 0x6Eu8] != seq![0x4Eu8, 0x6Fu8, 0x6Eu8, 0x65u8]) by {
                assert(seq![0x57u8, 0x61u8, 0x72u8, 0x6Eu8][0] != seq![0x4Eu8, 0x6Fu8, 0x6Eu8, 0x65u8][0]);
            }
            assert(seq![0x57u8, 0x61u8, 0x72u8, 0x6Eu8] != seq![0x55u8, 0x6Eu8, 0x73u8, 0x65u8, 0x74u8]) by {
                assert(seq![0x57u8, 0x61u8, 0x72u8, 0x6Eu8].len() != seq![0x55u8, 0x6Eu8, 0x73u8, 0x65u8, 0x74u8].len());
            }
            assert(spec_parse_m_op_mode(seq![0x57u8, 0x61u8, 0x72u8, 0x6Eu8]) == Some(MOpMode::Warn));
        },
    }
}

/// Decode one `MOpMode` keyword.
pub fn assemble_m_op_mode(c: &mut TokenCursor) -> (r: Result<MOpMode, ParseError>)
    requires
        old(c).wf(),
    ensures
        final(c).wf(),
        final(c).toks() == old(c).toks(),
        (r is Ok) <==> (old(c).at() < old(c).toks().len() && (match old(c).toks()[old(c).at()] {
            Token::Identifier(b, _) => spec_parse_m_op_mode(b@) is Some,
            _ => false,
        })),
        r matches Ok(v) ==> final(c).at() == old(c).at() + 1 && (match old(c).toks()[old(c).at()] {
            Token::Identifier(b, _) => spec_parse_m_op_mode(b@) == Some(v),
            _ => false,
        }),
        r matches Err(e) ==> (match e.tok {
            Some(t2) => old(c).at() < old(c).toks().len() && token_den(t2) == token_den(
                old(c).toks()[old(c).at()],
            ) && e.pos == spec_token_pos(old(c).toks()[old(c).at()]),
            Option::None => old(c).at() >= old(c).toks().len() && e.kind
                == ParseErrorKind::UnexpectedEnd,
        }),
{
    let pos = c.here();
    match c.next() {
        Some(Token::Identifier(b, p)) => {
            let p = *p;
            let k_define: [u8; 6] = [0x44, 0x65, 0x66, 0x69, 0x6E, 0x65];
            if bytes_eq(b.as_slice(), k_define.as_slice()) {
                proof {
                    assert(b@ =~= seq![0x44u8, 0x65u8, 0x66u8, 0x69u8, 0x6Eu8, 0x65u8]);
                }
                return Ok(MOpMode::Define);
            }
            let k_inout: [u8; 5] = [0x49, 0x6E, 0x4F, 0x75, 0x74];
            if bytes_eq(b.as_slice(), k_inout.as_slice()) {
                proof {
                    assert(b@ =~= seq![0x49u8, 0x6Eu8, 0x4Fu8, 0x75u8, 0x74u8]);
                }
                return Ok(MOpMode::InOut);
            }
            let k_modenone: [u8; 4] = [0x4E, 0x6F, 0x6E, 0x65];
            if bytes_eq(b.as_slice(), k_modenone.as_slice()) {
                proof {
                    assert(b@ =~= seq![0x4Eu8, 0x6Fu8, 0x6Eu8, 0x65u8]);
                }
                return Ok(MOpMode::ModeNone);
            }
            let k_unset: [u8; 5] = [0x55, 0x6E, 0x73, 0x65, 0x74];
            if bytes_eq(b.as_slice(), k_unset.as_slice()) {
                proof {
                    assert(b@ =~= seq![0x55u8, 0x6Eu8, 0x73u8, 0x65u8, 0x74u8]);
                }
                return Ok(MOpMode::Unset);
            }
            let k_warn: [u8; 4] = [0x57, 0x61, 0x72, 0x6E];
            if bytes_eq(b.as_slice(), k_warn.as_slice()) {
                proof {
                    assert(b@ =~= seq![0x57u8, 0x61u8, 0x72u8, 0x6Eu8]);
                }
                return Ok(MOpMode::Warn);
            }
            Err(err_ident(ParseErrorKind::UnknownKeyword, b, p))
        },
        Some(t) => Err(err_at(ParseErrorKind::UnexpectedToken, t)),
        Option::None => Err(err_end(pos)),
    }
}

#[derive(Copy, Clone, Debug, PartialEq, Eq, Structural)]
pub enum ObjMethodOp {
    NullSafe,
    NullThrows,
}

/// The keyword that names each variant; the match is exhaustive, so
/// every variant has a table entry.
pub open spec fn spec_obj_method_op_keyword(v: ObjMethodOp) -> Seq<u8> {
    match v {
        ObjMethodOp::NullSafe => seq![0x4Eu8, 0x75u8, 0x6Cu8, 0x6Cu8, 0x53u8, 0x61u8, 0x66u8, 0x65u8],
        ObjMethodOp::NullThrows => seq![0x4Eu8, 0x75u8, 0x6Cu8, 0x6Cu8, 0x54u8, 0x68u8, 0x72u8, 0x6Fu8, 0x77u8, 0x73u8],
    }
}

/// The variant a keyword names, if any.
pub open spec fn spec_parse_obj_method_op(b: Seq<u8>) -> Option<ObjMethodOp> {
    if b == seq![0x4Eu8, 0x75u8, 0x6Cu8, 0x6Cu8, 0x53u8, 0x61u8, 0x66u8, 0x65u8] {
        Some(ObjMethodOp::NullSafe)
    } else if b == seq![0x4Eu8, 0x75u8, 0x6Cu8, 0x6Cu8, 0x54u8, 0x68u8, 0x72u8, 0x6Fu8, 0x77u8, 0x73u8] {
        Some(ObjMethodOp::NullThrows)
    } else {
        Option::None
    }
}

/// Law: every variant's keyword parses back to that variant, so the
/// table is exhaustive and unambiguous.
pub proof fn lemma_obj_method_op_exhaustive(v: ObjMethodOp)
    ensures
        spec_parse_obj_method_op(spec_obj_method_op_keyword(v)) == Some(v),
{
    match v {
        ObjMethodOp::NullSafe => {
            assert(spec_parse_obj_method_op(seq![0x4Eu8, 0x75u8, 0x6Cu8, 0x6Cu8, 0x53u8, 0x61u8, 0x66u8, 0x65u8]) == Some(ObjMethodOp::NullSafe));
        },
        ObjMethodOp::NullThrows => {
            assert(seq![0x4Eu8, 0x75u8, 0x6Cu8, 0x6Cu8, 0x54u8, 0x68u8, 0x72u8, 0x6Fu8, 0x77u8, 0x73u8] != seq![0x4Eu8, 0x75u8, 0x6Cu8, 0x6Cu8, 0x53u8, 0x61u8, 0x66u8, 0x65u8]) by {
                assert(seq![0x4Eu8, 0x75u8, 0x6Cu8, 0x6Cu8, 0x54u8, 0x68u8, 0x72u8, 0x6Fu8, 0x77u8, 0x73u8].len() != seq![0x4Eu8, 0x75u8, 0x6Cu8, 0x6Cu8, 0x53u8, 0x61u8, 0x66u8, 0x65u8].len());
            }
            assert(spec_parse_obj_method_op(seq![0x4Eu8, 0x75u8, 0x6Cu8, 0x6Cu8, 0x54u8, 0x68u8, 0x72u8, 0x6Fu8, 0x77u8, 0x73u8]) == Some(ObjMethodOp::NullThrows));
        },
    }
}

/// Decode one `ObjMethodOp` keyword.
pub fn assemble_obj_method_op(c: &mut TokenCursor) -> (r: Result<ObjMethodOp, ParseError>)
    requires
        old(c).wf(),
    ensures
        final(c).wf(),
        final(c).toks() == old(c).toks(),
        (r is Ok) <==> (old(c).at() < old(c).toks().len() && (match old(c).toks()[old(c).at()] {
            Token::Identifier(b, _) => spec_parse_obj_method_op(b@) is Some,
            _ => false,
        })),
        r matches Ok(v) ==> final(c).at() == old(c).at() + 1 && (match old(c).toks()[old(c).at()] {
            Token::Identifier(b, _) => spec_parse_obj_method_op(b@) == Some(v),
            _ => false,
        }),
        r matches Err(e) ==> (match e.tok {
            Some(t2) => old(c).at() < old(c).toks().len() && token_den(t2) == token_den(
                old(c).toks()[old(c).at()],
            ) && e.pos == spec_token_pos(old(c).toks()[old(c).at()]),
            Option::None => old(c).at() >= old(c).toks().len() && e.kind
                == ParseErrorKind::UnexpectedEnd,
        }),
{
    let pos = c.here();
    match c.next() {
        Some(Token::Identifier(b, p)) => {
            let p = *p;
            let k_nullsafe: [u8; 8] = [0x4E, 0x75, 0x6C, 0x6C, 0x53, 0x61, 0x66, 0x65];
            if bytes_eq(b.as_slice(), k_nullsafe.as_slice()) {
                proof {
                    assert(b@ =~= seq![0x4Eu8, 0x75u8, 0x6Cu8, 0x6Cu8, 0x53u8, 0x61u8, 0x66u8, 0x65u8]);
                }
                return Ok(ObjMethodOp::NullSafe);
            }
            let k_nullthrows: [u8; 10] = [0x4E, 0x75, 0x6C, 0x6C, 0x54, 0x68, 0x72, 0x6F, 0x77, 0x73];
            if bytes_eq(b.as_slice(), k_nullthrows.as_slice()) {
                proof {
                    assert(b@ =~= seq![0x4Eu8, 0x75u8, 0x6Cu8, 0x6Cu8, 0x54u8, 0x68u8, 0x72u8, 0x6Fu8, 0x77u8, 0x73u8]);
                }
                return Ok(ObjMethodOp::NullThrows);
            }
            Err(err_ident(ParseErrorKind::UnknownKeyword, b, p))
        },
        Some(t) => Err(err_at(ParseErrorKind::UnexpectedToken, t)),
        Option::None => Err(err_end(pos)),
    }
}

#[derive(Copy, Clone, Debug, PartialEq, Eq, Structural)]
pub enum OODeclExistsOp {
    DeclClass,
    Interface,
    Trait,
}

/// The keyword that names each variant; the match is exhaustive, so
/// every variant has a table entry.
pub open spec fn spec_oo_decl_exists_op_keyword(v: OODeclExistsOp) -> Seq<u8> {
    match v {
        OODeclExistsOp::DeclClass => seq![0x43u8, 0x6Cu8, 0x61u8, 0x73u8, 0x73u8],
        OODeclExistsOp::Interface => seq![0x49u8, 0x6Eu8, 0x74u8, 0x65u8, 0x72u8, 0x66u8, 0x61u8, 0x63u8, 0x65u8],
        OODeclExistsOp::Trait => seq![0x54u8, 0x72u8, 0x61u8, 0x69u8, 0x74u8],
    }
}

/// The variant a keyword names, if any.
pub open spec fn spec_parse_oo_decl_exists_op(b: Seq<u8>) -> Option<OODeclExistsOp> {
    if b == seq![0x43u8, 0x6Cu8, 0x61u8, 0x73u8, 0x73u8] {
        Some(OODeclExistsOp::DeclClass)
    } else if b == seq![0x49u8, 0x6Eu8, 0x74u8, 0x65u8, 0x72u8, 0x66u8, 0x61u8, 0x63u8, 0x65u8] {
        Some(OODeclExistsOp::Interface)
    } else if b == seq![0x54u8, 0x72u8, 0x61u8, 0x69u8, 0x74u8] {
        Some(OODeclExistsOp::Trait)
    } else {
        Option::None
    }
}

/// Law: every variant's keyword parses back to that variant, so the
/// table is exhaustive and unambiguous.
pub proof fn lemma_oo_decl_exists_op_exhaustive(v: OODeclExistsOp)
    ensures
        spec_parse_oo_decl_exists_op(spec_oo_decl_exists_op_keyword(v)) == Some(v),
{
    match v {
        OODeclExistsOp::DeclClass => {
            assert(spec_parse_oo_decl_exists_op(seq![0x43u8, 0x6Cu8, 0x61u8, 0x73u8, 0x73u8]) == Some(OODeclExistsOp::DeclClass));
        },
        OODeclExistsOp::Interface => {
            assert(seq![0x49u8, 0x6Eu8, 0x74u8, 0x65u8, 0x72u8, 0x66u8, 0x61u8, 0x63u8, 0x65u8] != seq![0x43u8, 0x6Cu8, 0x61u8, 0x73u8, 0x73u8]) by {
                assert(seq![0x49u8, 0x6Eu8, 0x74u8, 0x65u8, 0x72u8, 0x66u8, 0x61u8, 0x63u8, 0x65u8].len() != seq![0x43u8, 0x6Cu8, 0x61u8, 0x73u8, 0x73u8].len());
            }
            assert(spec_parse_oo_decl_exists_op(seq![0x49u8, 0x6Eu8, 0x74u8, 0x65u8, 0x72u8, 0x66u8, 0x61u8, 0x63u8, 0x65u8]) == Some(OODeclExistsOp::Interface));
        },
        OODeclExistsOp::Trait => {
            assert(seq![0x54u8, 0x72u8, 0x61u8, 0x69u8, 0x74u8] != seq![0x43u8, 0x6Cu8, 0x61u8, 0x73u8, 0x73u8]) by {
                assert(seq![0x54u8, 0x72u8, 0x61u8, 0x69u8, 0x74u8][0] != seq![0x43u8, 0x6Cu8, 0x61u8, 0x73u8, 0x73u8][0]);
            }
            assert(seq![0x54u8, 0x72u8, 0x61u8, 0x69u8, 0x74u8] != seq![0x49u8, 0x6Eu8, 0x74u8, 0x65u8, 0x72u8, 0x66u8, 0x61u8, 0x63u8, 0x65u8]) by {
                assert(seq![0x54u8, 0x72u8, 0x61u8, 0x69u8, 0x74u8].len() != seq![0x49u8, 0x6Eu8, 0x74u8, 0x65u8, 0x72u8, 0x66u8, 0x61u8, 0x63u8, 0x65u8].len());
            }
            assert(spec_parse_oo_decl_exists_op(seq![0x54u8, 0x72u8, 0x61u8, 0x69u8, 0x74u8]) == Some(OODeclExistsOp::Trait));
        },
    }
}

/// Decode one `OODeclExistsOp` keyword.
pub fn assemble_oo_decl_exists_op(c: &mut TokenCursor) -> (r: Result<OODeclExistsOp, ParseError>)
    requires
        old(c).wf(),
    ensures
        final(c).wf(),
        final(c).toks() == old(c).toks(),
        (r is Ok) <==> (old(c).at() < old(c).toks().len() && (match old(c).toks()[old(c).at()] {
            Token::Identifier(b, _) => spec_parse_oo_decl_exists_op(b@) is Some,
            _ => false,
        })),
        r matches Ok(v) ==> final(c).at() == old(c).at() + 1 && (match old(c).toks()[old(c).at()] {
            Token::Identifier(b, _) => spec_parse_oo_decl_exists_op(b@) == Some(v),
            _ => false,
        }),
        r matches Err(e) ==> (match e.tok {
            Some(t2) => old(c).at() < old(c).toks().len() && token_den(t2) == token_den(
                old(c).toks()[old(c).at()],
            ) && e.pos == spec_token_pos(old(c).toks()[old(c).at()]),
            Option::None => old(c).at() >= old(c).toks().len() && e.kind
                == ParseErrorKind::UnexpectedEnd,
        }),
{
    let pos = c.here();
    match c.next() {
        Some(Token::Identifier(b, p)) => {
            let p = *p;
            let k_declclass: [u8; 5] = [0x43, 0x6C, 0x61, 0x73, 0x73];
            if bytes_eq(b.as_slice(), k_declclass.as_slice()) {
                proof {
                    assert(b@ =~= seq![0x43u8, 0x6Cu8, 0x61u8, 0x73u8, 0x73u8]);
                }
                return Ok(OODeclExistsOp::DeclClass);
            }
            let k_interface: [u8; 9] = [0x49, 0x6E, 0x74, 0x65, 0x72, 0x66, 0x61, 0x63, 0x65];
            if bytes_eq(b.as_slice(), k_interface.as_slice()) {
                proof {
                    assert(b@ =~= seq![0x49u8, 0x6Eu8, 0x74u8, 0x65u8, 0x72u8, 0x66u8, 0x61u8, 0x63u8, 0x65u8]);
                }
                return Ok(OODeclExistsOp::Interface);
            }
            let k_trait: [u8; 5] = [0x54, 0x72, 0x61, 0x69, 0x74];
            if bytes_eq(b.as_slice(), k_trait.as_slice()) {
                proof {
                    assert(b@ =~= seq![0x54u8, 0x72u8, 0x61u8, 0x69u8, 0x74u8]);
                }
                return Ok(OODeclExistsOp::Trait);
            }
            Err(err_ident(ParseErrorKind::UnknownKeyword, b, p))
        },
        Some(t) => Err(err_at(ParseErrorKind::UnexpectedToken, t)),
        Option::None => Err(err_end(pos)),
    }
}

#[derive(Copy, Clone, Debug, PartialEq, Eq, Structural)]
pub enum QueryMOp {
    CGet,
    CGetQuiet,
    QueryInOut,
    Isset,
}

/// The keyword that names each variant; the match is exhaustive, so
/// every variant has a table entry.
pub open spec fn spec_query_m_op_keyword(v: QueryMOp) -> Seq<u8> {
    match v {
        QueryMOp::CGet => seq![0x43u8, 0x47u8, 0x65u8, 0x74u8],
        QueryMOp::CGetQuiet => seq![0x43u8, 0x47u8, 0x65u8, 0x74u8, 0x51u8, 0x75u8, 0x69u8, 0x65u8, 0x74u8],
        QueryMOp::QueryInOut => seq![0x49u8, 0x6Eu8, 0x4Fu8, 0x75u8, 0x74u8],
        QueryMOp::Isset => seq![0x49u8, 0x73u8, 0x73u8, 0x65u8, 0x74u8],
    }
}

/// The variant a keyword names, if any.
pub open spec fn spec_parse_query_m_op(b: Seq<u8>) -> Option<QueryMOp> {
    if b == seq![0x43u8, 0x47u8, 0x65u8, 0x74u8] {
        Some(QueryMOp::CGet)
    } else if b == seq![0x43u8, 0x47u8, 0x65u8, 0x74u8, 0x51u8, 0x75u8, 0x69u8, 0x65u8, 0x74u8] {
        Some(QueryMOp::CGetQuiet)
    } else if b == seq![0x49u8, 0x6Eu8, 0x4Fu8, 0x75u8, 0x74u8] {
        Some(QueryMOp::QueryInOut)
    } else if b == seq![0x49u8, 0x73u8, 0x73u8, 0x65u8, 0x74u8] {
        Some(QueryMOp::Isset)
    } else {
        Option::None
    }
}

/// Law: every variant's keyword parses back to that variant, so the
/// table is exhaustive and unambiguous.
pub proof fn lemma_query_m_op_exhaustive(v: QueryMOp)
    ensures
        spec_parse_query_m_op(spec_query_m_op_keyword(v)) == Some(v),
{
    match v {
        QueryMOp::CGet => {
            assert(spec_parse_query_m_op(seq![0x43u8, 0x47u8, 0x65u8, 0x74u8]) == Some(QueryMOp::CGet));
        },
        QueryMOp::CGetQuiet => {
            assert(seq![0x43u8, 0x47u8, 0x65u8, 0x74u8, 0x51u8, 0x75u8, 0x69u8, 0x65u8, 0x74u8] != seq![0x43u8, 0x47u8, 0x65u8, 0x74u8]) by {
                assert(seq![0x43u8, 0x47u8, 0x65u8, 0x74u8, 0x51u8, 0x75u8, 0x69u8, 0x65u8, 0x74u8].len() != seq![0x43u8, 0x47u8, 0x65u8, 0x74u8].len());
            }
            assert(spec_parse_query_m_op(seq![0x43u8, 0x47u8, 0x65u8, 0x74u8, 0x51u8, 0x75u8, 0x69u8, 0x65u8, 0x74u8]) == Some(QueryMOp::CGetQuiet));
        },
        QueryMOp::QueryInOut => {
            assert(seq![0x49u8, 0x6Eu8, 0x4Fu8, 0x75u8, 0x74u8] != seq![0x43u8, 0x47u8, 0x65u8, 0x74u8]) by {
                assert(seq![0x49u8, 0x6Eu8, 0x4Fu8, 0x75u8, 0x74u8].len() != seq![0x43u8, 0x47u8, 0x65u8, 0x74u8].len());
            }
            assert(seq![0x49u8, 0x6Eu8, 0x4Fu8, 0x75u8, 0x74u8] != seq![0x43u8, 0x47u8, 0x65u8, 0x74u8, 0x51u8, 0x75u8, 0x69u8, 0x65u8, 0x74u8]) by {
                assert(seq![0x49u8, 0x6Eu8, 0x4Fu8, 0x75u8, 0x74u8].len() != seq![0x43u8, 0x47u8, 0x65u8, 0x74u8, 0x51u8, 0x75u8, 0x69u8, 0x65u8, 0x74u8].len());
            }
            assert(spec_parse_query_m_op(seq![0x49u8, 0x6Eu8, 0x4Fu8, 0x75u8, 0x74u8]) == Some(QueryMOp::QueryInOut));
        },
        QueryMOp::Isset => {
            assert(seq![0x49u8, 0x73u8, 0x73u8, 0x65u8, 0x74u8] != seq![0x43u8, 0x47u8, 0x65u8, 0x74u8]) by {
                assert(seq![0x49u8, 0x73u8, 0x73u8, 0x65u8, 0x74u8].len() != seq![0x43u8, 0x47u8, 0x65u8, 0x74u8].len());
            }
            assert(seq![0x49u8, 0x73u8, 0x73u8, 0x65u8, 0x74u8] != seq![0x43u8, 0x47u8, 0x65u8, 0x74u8, 0x51u8, 0x75u8, 0x69u8, 0x65u8, 0x74u8]) by {
                assert(seq![0x49u8, 0x73u8, 0x73u8, 0x65u8, 0x74u8].len() != seq![0x43u8, 0x47u8, 0x65u8, 0x74u8, 0x51u8, 0x75u8, 0x69u8, 0x65u8, 0x74u8].len());
            }
            assert(seq![0x49u8, 0x73u8, 0x73u8, 0x65u8, 0x74u8] != seq![0x49u8, 0x6Eu8, 0x4Fu8, 0x75u8, 0x74u8]) by {
                assert(seq![0x49u8, 0x73u8, 0x73u8, 0x65u8, 0x74u8][1] != seq![0x49u8, 0x6Eu8, 0x4Fu8, 0x75u8, 0x74u8][1]);
            }
            assert(spec_parse_query_m_op(seq![0x49u8, 0x73u8, 0x73u8, 0x65u8, 0x74u8]) == Some(QueryMOp::Isset));
        },
    }
}

/// Decode one `QueryMOp` keyword.
pub fn assemble_query_m_op(c: &mut TokenCursor) -> (r: Result<QueryMOp, ParseError>)
    requires
        old(c).wf(),
    ensures
        final(c).wf(),
        final(c).toks() == old(c).toks(),
        (r is Ok) <==> (old(c).at() < old(c).toks().len() && (match old(c).toks()[old(c).at()] {
            Token::Identifier(b, _) => spec_parse_query_m_op(b@) is Some,
            _ => false,
        })),
        r matches Ok(v) ==> final(c).at() == old(c).at() + 1 && (match old(c).toks()[old(c).at()] {
            Token::Identifier(b, _) => spec_parse_query_m_op(b@) == Some(v),
            _ => false,
        }),
        r matches Err(e) ==> (match e.tok {
            Some(t2) => old(c).at() < old(c).toks().len() && token_den(t2) == token_den(
                old(c).toks()[old(c).at()],
            ) && e.pos == spec_token_pos(old(c).toks()[old(c).at()]),
            Option::None => old(c).at() >= old(c).toks().len() && e.kind
                == ParseErrorKind::UnexpectedEnd,
        }),
{
    let pos = c.here();
    match c.next() {
        Some(Token::Identifier(b, p)) => {
            let p = *p;
            let k_cget: [u8; 4] = [0x43, 0x47, 0x65, 0x74];
            if bytes_eq(b.as_slice(), k_cget.as_slice()) {
                proof {
                    assert(b@ =~= seq![0x43u8, 0x47u8, 0x65u8, 0x74u8]);
                }
                return Ok(QueryMOp::CGet);
            }
            let k_cgetquiet: [u8; 9] = [0x43, 0x47, 0x65, 0x74, 0x51, 0x75, 0x69, 0x65, 0x74];
            if bytes_eq(b.as_slice(), k_cgetquiet.as_slice()) {
                proof {
                    assert(b@ =~= seq![0x43u8, 0x47u8, 0x65u8, 0x74u8, 0x51u8, 0x75u8, 0x69u8, 0x65u8, 0x74u8]);
                }
                return Ok(QueryMOp::CGetQuiet);
            }
            let k_queryinout: [u8; 5] = [0x49, 0x6E, 0x4F, 0x75, 0x74];
            if bytes_eq(b.as_slice(), k_queryinout.as_slice()) {
                proof {
                    assert(b@ =~= seq![0x49u8, 0x6Eu8, 0x4Fu8, 0x75u8, 0x74u8]);
                }
                return Ok(QueryMOp::QueryInOut);
            }
            let k_isset: [u8; 5] = [0x49, 0x73, 0x73, 0x65, 0x74];
            if bytes_eq(b.as_slice(), k_isset.as_slice()) {
                proof {
                    assert(b@ =~= seq![0x49u8, 0x73u8, 0x73u8, 0x65u8, 0x74u8]);
                }
                return Ok(QueryMOp::Isset);
            }
            Err(err_ident(ParseErrorKind::UnknownKeyword, b, p))
        },
        Some(t) => Err(err_at(ParseErrorKind::UnexpectedToken, t)),
        Option::None => Err(err_end(pos)),
    }
}

#[derive(Copy, Clone, Debug, PartialEq, Eq, Structural)]
pub enum ReadonlyOp {
    Any,
    CheckMutROCOW,
    CheckROCOW,
    Mutable,
    Readonly,
}

/// The keyword that names each variant; the match is exhaustive, so
/// every variant has a table entry.
pub open spec fn spec_readonly_op_keyword(v: ReadonlyOp) -> Seq<u8> {
    match v {
        ReadonlyOp::Any => seq![0x41u8, 0x6Eu8, 0x79u8],
        ReadonlyOp::CheckMutROCOW => seq![0x43u8, 0x68u8, 0x65u8, 0x63u8, 0x6Bu8, 0x4Du8, 0x75u8, 0x74u8, 0x52u8, 0x4Fu8, 0x43u8, 0x4Fu8, 0x57u8],
        ReadonlyOp::CheckROCOW => seq![0x43u8, 0x68u8, 0x65u8, 0x63u8, 0x6Bu8, 0x52u8, 0x4Fu8, 0x43u8, 0x4Fu8, 0x57u8],
        ReadonlyOp::Mutable => seq![0x4Du8, 0x75u8, 0x74u8, 0x61u8, 0x62u8, 0x6Cu8, 0x65u8],
        ReadonlyOp::Readonly => seq![0x52u8, 0x65u8, 0x61u8, 0x64u8, 0x6Fu8, 0x6Eu8, 0x6Cu8, 0x79u8],
    }
}

/// The variant a keyword names, if any.
pub open spec fn spec_parse_readonly_op(b: Seq<u8>) -> Option<ReadonlyOp> {
    if b == seq![0x41u8, 0x6Eu8, 0x79u8] {
        Some(ReadonlyOp::Any)
    } else if b == seq![0x43u8, 0x68u8, 0x65u8, 0x63u8, 0x6Bu8, 0x4Du8, 0x75u8, 0x74u8, 0x52u8, 0x4Fu8, 0x43u8, 0x4Fu8, 0x57u8] {
        Some(ReadonlyOp::CheckMutROCOW)
    } else if b == seq![0x43u8, 0x68u8, 0x65u8, 0x63u8, 0x6Bu8, 0x52u8, 0x4Fu8, 0x43u8, 0x4Fu8, 0x57u8] {
        Some(ReadonlyOp::CheckROCOW)
    } else if b == seq![0x4Du8, 0x75u8, 0x74u8, 0x61u8, 0x62u8, 0x6Cu8, 0x65u8] {
        Some(ReadonlyOp::Mutable)
    } else if b == seq![0x52u8, 0x65u8, 0x61u8, 0x64u8, 0x6Fu8, 0x6Eu8, 0x6Cu8, 0x79u8] {
        Some(ReadonlyOp::Readonly)
    } else {
        Option::None
    }
}

/// Law: every variant's keyword parses back to that variant, so the
/// table is exhaustive and unambiguous.
pub proof fn lemma_readonly_op_exhaustive(v: ReadonlyOp)
    ensures
        spec_parse_readonly_op(spec_readonly_op_keyword(v)) == Some(v),
{
    match v {
        ReadonlyOp::Any => {
            assert(spec_parse_readonly_op(seq![0x41u8, 0x6Eu8, 0x79u8]) == Some(ReadonlyOp::Any));
        },
        ReadonlyOp::CheckMutROCOW => {
            assert(seq![0x43u8, 0x68u8, 0x65u8, 0x63u8, 0x6Bu8, 0x4Du8, 0x75u8, 0x74u8, 0x52u8, 0x4Fu8, 0x43u8, 0x4Fu8, 0x57u8] != seq![0x41u8, 0x6Eu8, 0x79u8]) by {
                assert(seq![0x43u8, 0x68u8, 0x65u8, 0x63u8, 0x6Bu8, 0x4Du8, 0x75u8, 0x74u8, 0x52u8, 0x4Fu8, 0x43u8, 0x4Fu8, 0x57u8].len() != seq![0x41u8, 0x6Eu8, 0x79u8].len());
            }
            assert(spec_parse_readonly_op(seq![0x43u8, 0x68u8, 0x65u8, 0x63u8, 0x6Bu8, 0x4Du8, 0x75u8, 0x74u8, 0x52u8, 0x4Fu8, 0x43u8, 0x4Fu8, 0x57u8]) == Some(ReadonlyOp::CheckMutROCOW));
        },
        ReadonlyOp::CheckROCOW => {
            assert(seq![0x43u8, 0x68u8, 0x65u8, 0x63u8, 0x6Bu8, 0x52u8, 0x4Fu8, 0x43u8, 0x4Fu8, 0x57u8] != seq![0x41u8, 0x6Eu8, 0x79u8]) by {
                assert(seq![0x43u8, 0x68u8, 0x65u8, 0x63u8, 0x6Bu8, 0x52u8, 0x4Fu8, 0x43u8, 0x4Fu8, 0x57u8].len() != seq![0x41u8, 0x6Eu8, 0x79u8].len());
            }
            assert(seq![0x43u8, 0x68u8, 0x65u8, 0x63u8, 0x6Bu8, 0x52u8, 0x4Fu8, 0x43u8, 0x4Fu8, 0x57u8] != seq![0x43u8, 0x68u8, 0x65u8, 0x63u8, 0x6Bu8, 0x4Du8, 0x75u8, 0x74u8, 0x52u8, 0x4Fu8, 0x43u8, 0x4Fu8, 0x57u8]) by {
                assert(seq![0x43u8, 0x68u8, 0x65u8, 0x63u8, 0x6Bu8, 0x52u8, 0x4Fu8, 0x43u8, 0x4Fu8, 0x57u8].len() != seq![0x43u8, 0x68u8, 0x65u8, 0x63u8, 0x6Bu8, 0x4Du8, 0x75u8, 0x74u8, 0x52u8, 0x4Fu8, 0x43u8, 0x4Fu8, 0x57u8].len());
            }
            assert(spec_parse_readonly_op(seq![0x43u8, 0x68u8, 0x65u8, 0x63u8, 0x6Bu8, 0x52u8, 0x4Fu8, 0x43u8, 0x4Fu8, 0x57u8]) == Some(ReadonlyOp::CheckROCOW));
        },
        ReadonlyOp::Mutable => {
            assert(seq![0x4Du8, 0x75u8, 0x74u8, 0x61u8, 0x62u8, 0x6Cu8, 0x65u8] != seq![0x41u8, 0x6Eu8, 0x79u8]) by {
                assert(seq![0x4Du8, 0x75u8, 0x74u8, 0x61u8, 0x62u8, 0x6Cu8, 0x65u8].len() != seq![0x41u8, 0x6Eu8, 0x79u8].len());
            }
            assert(seq![0x4Du8, 0x75u8, 0x74u8, 0x61u8, 0x62u8, 0x6Cu8, 0x65u8] != seq![0x43u8, 0x68u8, 0x65u8, 0x63u8, 0x6Bu8, 0x4Du8, 0x75u8, 0x74u8, 0x52u8, 0x4Fu8, 0x43u8, 0x4Fu8, 0x57u8]) by {
                assert(seq![0x4Du8, 0x75u8, 0x74u8, 0x61u8, 0x62u8, 0x6Cu8, 0x65u8].len() != seq![0x43u8, 0x68u8, 0x65u8, 0x63u8, 0x6Bu8, 0x4Du8, 0x75u8, 0x74u8, 0x52u8, 0x4Fu8, 0x43u8, 0x4Fu8, 0x57u8].len());
            }
            assert(seq![0x4Du8, 0x75u8, 0x74u8, 0x61u8, 0x62u8, 0x6Cu8, 0x65u8] != seq![0x43u8, 0x68u8, 0x65u8, 0x63u8, 0x6Bu8, 0x52u8, 0x4Fu8, 0x43u8, 0x4Fu8, 0x57u8]) by {
                assert(seq![0x4Du8, 0x75u8, 0x74u8, 0x61u8, 0x62u8, 0x6Cu8, 0x65u8].len() != seq![0x43u8, 0x68u8, 0x65u8, 0x63u8, 0x6Bu8, 0x52u8, 0x4Fu8, 0x43u8, 0x4Fu8, 0x57u8].len());
            }
            assert(spec_parse_readonly_op(seq![0x4Du8, 0x75u8, 0x74u8, 0x61u8, 0x62u8, 0x6Cu8, 0x65u8]) == Some(ReadonlyOp::Mutable));
        },
        ReadonlyOp::Readonly => {
            assert(seq![0x52u8, 0x65u8, 0x61u8, 0x64u8, 0x6Fu8, 0x6Eu8, 0x6Cu8, 0x79u8] != seq![0x41u8, 0x6Eu8, 0x79u8]) by {
                assert(seq![0x52u8, 0x65u8, 0x61u8, 0x64u8, 0x6Fu8, 0x6Eu8, 0x6Cu8, 0x79u8].len() != seq![0x41u8, 0x6Eu8, 0x79u8].len());
            }
            assert(seq![0x52u8, 0x65u8, 0x61u8, 0x64u8, 0x6Fu8, 0x6Eu8, 0x6Cu8, 0x79u8] != seq![0x43u8, 0x68u8, 0x65u8, 0x63u8, 0x6Bu8, 0x4Du8, 0x75u8, 0x74u8, 0x52u8, 0x4Fu8, 0x43u8, 0x4Fu8, 0x57u8]) by {
                assert(seq![0x52u8, 0x65u8, 0x61u8, 0x64u8, 0x6Fu8, 0x6Eu8, 0x6Cu8, 0x79u8].len() != seq![0x43u8, 0x68u8, 0x65u8, 0x63u8, 0x6Bu8, 0x4Du8, 0x75u8, 0x74u8, 0x52u8, 0x4Fu8, 0x43u8, 0x4Fu8, 0x57u8].len());
            }
            assert(seq![0x52u8, 0x65u8, 0x61u8, 0x64u8, 0x6Fu8, 0x6Eu8, 0x6Cu8, 0x79u8] != seq![0x43u8, 0x68u8, 0x65u8, 0x63u8, 0x6Bu8, 0x52u8, 0x4Fu8, 0x43u8, 0x4Fu8, 0x57u8]) by {
                assert(seq![0x52u8, 0x65u8, 0x61u8, 0x64u8, 0x6Fu8, 0x6Eu8, 0x6Cu8, 0x79u8].len() != seq![0x43u8, 0x68u8, 0x65u8, 0x63u8, 0x6Bu8, 0x52u8, 0x4Fu8, 0x43u8, 0x4Fu8, 0x57u8].len());
            }
            assert(seq![0x52u8, 0x65u8, 0x61u8, 0x64u8, 0x6Fu8, 0x6Eu8, 0x6Cu8, 0x79u8] != seq![0x4Du8, 0x75u8, 0x74u8, 0x61u8, 0x62u8, 0x6Cu8, 0x65u8]) by {
                assert(seq![0x52u8, 0x65u8, 0x61u8, 0x64u8, 0x6Fu8, 0x6Eu8, 0x6Cu8, 0x79u8].len() != seq![0x4Du8, 0x75u8, 0x74u8, 0x61u8, 0x62u8, 0x6Cu8, 0x65u8].len());
            }
            assert(spec_parse_readonly_op(seq![0x52u8, 0x65u8, 0x61u8, 0x64u8, 0x6Fu8, 0x6Eu8, 0x6Cu8, 0x79u8]) == Some(ReadonlyOp::Readonly));
        },
    }
}

/// Decode one `ReadonlyOp` keyword.
pub fn assemble_readonly_op(c: &mut TokenCursor) -> (r: Result<ReadonlyOp, ParseError>)
    requires
        old(c).wf(),
    ensures
        final(c).wf(),
        final(c).toks() == old(c).toks(),
        (r is Ok) <==> (old(c).at() < old(c).toks().len() && (match old(c).toks()[old(c).at()] {
            Token::Identifier(b, _) => spec_parse_readonly_op(b@) is Some,
            _ => false,
        })),
        r matches Ok(v) ==> final(c).at() == old(c).at() + 1 && (match old(c).toks()[old(c).at()] {
            Token::Identifier(b, _) => spec_parse_readonly_op(b@) == Some(v),
            _ => false,
        }),
        r matches Err(e) ==> (match e.tok {
            Some(t2) => old(c).at() < old(c).toks().len() && token_den(t2) == token_den(
                old(c).toks()[old(c).at()],
            ) && e.pos == spec_token_pos(old(c).toks()[old(c).at()]),
            Option::None => old(c).at() >= old(c).toks().len() && e.kind
                == ParseErrorKind::UnexpectedEnd,
        }),
{
    let pos = c.here();
    match c.next() {
        Some(Token::Identifier(b, p)) => {
            let p = *p;
            let k_any: [u8; 3] = [0x41, 0x6E, 0x79];
            if bytes_eq(b.as_slice(), k_any.as_slice()) {
                proof {
                    assert(b@ =~= seq![0x41u8, 0x6Eu8, 0x79u8]);
                }
                return Ok(ReadonlyOp::Any);
            }
            let k_checkmutrocow: [u8; 13] = [0x43, 0x68, 0x65, 0x63, 0x6B, 0x4D, 0x75, 0x74, 0x52, 0x4F, 0x43, 0x4F, 0x57];
            if bytes_eq(b.as_slice(), k_checkmutrocow.as_slice()) {
                proof {
                    assert(b@ =~= seq![0x43u8, 0x68u8, 0x65u8, 0x63u8, 0x6Bu8, 0x4Du8, 0x75u8, 0x74u8, 0x52u8, 0x4Fu8, 0x43u8, 0x4Fu8, 0x57u8]);
                }
                return Ok(ReadonlyOp::CheckMutROCOW);
            }
            let k_checkrocow: [u8; 10] = [0x43, 0x68, 0x65, 0x63, 0x6B, 0x52, 0x4F, 0x43, 0x4F, 0x57];
            if bytes_eq(b.as_slice(), k_checkrocow.as_slice()) {
                proof {
                    assert(b@ =~= seq![0x43u8, 0x68u8, 0x65u8, 0x63u8, 0x6Bu8, 0x52u8, 0x4Fu8, 0x43u8, 0x4Fu8, 0x57u8]);
                }
                return Ok(ReadonlyOp::CheckROCOW);
            }
            let k_mutable: [u8; 7] = [0x4D, 0x75, 0x74, 0x61, 0x62, 0x6C, 0x65];
            if bytes_eq(b.as_slice(), k_mutable.as_slice()) {
                proof {
                    assert(b@ =~= seq![0x4Du8, 0x75u8, 0x74u8, 0x61u8, 0x62u8, 0x6Cu8, 0x65u8]);
                }
                return Ok(ReadonlyOp::Mutable);
            }
            let k_readonly: [u8; 8] = [0x52, 0x65, 0x61, 0x64, 0x6F, 0x6E, 0x6C, 0x79];
            if bytes_eq(b.as_slice(), k_readonly.as_slice()) {
                proof {
                    assert(b@ =~= seq![0x52u8, 0x65u8, 0x61u8, 0x64u8, 0x6Fu8, 0x6Eu8, 0x6Cu8, 0x79u8]);
                }
                return Ok(ReadonlyOp::Readonly);
            }
            Err(err_ident(ParseErrorKind::UnknownKeyword, b, p))
        },
        Some(t) => Err(err_at(ParseErrorKind::UnexpectedToken, t)),
        Option::None => Err(err_end(pos)),
    }
}

#[derive(Copy, Clone, Debug, PartialEq, Eq, Structural)]
pub enum SetOpOp {
    AndEqual,
    ConcatEqual,
    DivEqual,
    MinusEqual,
    ModEqual,
    MulEqual,
    OrEqual,
    PlusEqual,
    PowEqual,
    SlEqual,
    SrEqual,
    XorEqual,
}

/// The keyword that names each variant; the match is exhaustive, so
/// every variant has a table entry.
pub open spec fn spec_set_op_op_keyword(v: SetOpOp) -> Seq<u8> {
    match v {
        SetOpOp::AndEqual => seq![0x41u8, 0x6Eu8, 0x64u8, 0x45u8, 0x71u8, 0x75u8, 0x61u8, 0x6Cu8],
        SetOpOp::ConcatEqual => seq![0x43u8, 0x6Fu8, 0x6Eu8, 0x63u8, 0x61u8, 0x74u8, 0x45u8, 0x71u8, 0x75u8, 0x61u8, 0x6Cu8],
        SetOpOp::DivEqual => seq![0x44u8, 0x69u8, 0x76u8, 0x45u8, 0x71u8, 0x75u8, 0x61u8, 0x6Cu8],
        SetOpOp::MinusEqual => seq![0x4Du8, 0x69u8, 0x6Eu8, 0x75u8, 0x73u8, 0x45u8, 0x71u8, 0x75u8, 0x61u8, 0x6Cu8],
        SetOpOp::ModEqual => seq![0x4Du8, 0x6Fu8, 0x64u8, 0x45u8, 0x71u8, 0x75u8, 0x61u8, 0x6Cu8],
        SetOpOp::MulEqual => seq![0x4Du8, 0x75u8, 0x6Cu8, 0x45u8, 0x71u8, 0x75u8, 0x61u8, 0x6Cu8],
        SetOpOp::OrEqual => seq![0x4Fu8, 0x72u8, 0x45u8, 0x71u8, 0x75u8, 0x61u8, 0x6Cu8],
        SetOpOp::PlusEqual => seq![0x50u8, 0x6Cu8, 0x75u8, 0x73u8, 0x45u8, 0x71u8, 0x75u8, 0x61u8, 0x6Cu8],
        SetOpOp::PowEqual => seq![0x50u8, 0x6Fu8, 0x77u8, 0x45u8, 0x71u8, 0x75u8, 0x61u8, 0x6Cu8],
        SetOpOp::SlEqual => seq![0x53u8, 0x6Cu8, 0x45u8, 0x71u8, 0x75u8, 0x61u8, 0x6Cu8],
        SetOpOp::SrEqual => seq![0x53u8, 0x72u8, 0x45u8, 0x71u8, 0x75u8, 0x61u8, 0x6Cu8],
        SetOpOp::XorEqual => seq![0x58u8, 0x6Fu8, 0x72u8, 0x45u8, 0x71u8, 0x75u8, 0x61u8, 0x6Cu8],
    }
}

/// The variant a keyword names, if any.
pub open spec fn spec_parse_set_op_op(b: Seq<u8>) -> Option<SetOpOp> {
    if b == seq![0x41u8, 0x6Eu8, 0x64u8, 0x45u8, 0x71u8, 0x75u8, 0x61u8, 0x6Cu8] {
        Some(SetOpOp::AndEqual)
    } else if b == seq![0x43u8, 0x6Fu8, 0x6Eu8, 0x63u8, 0x61u8, 0x74u8, 0x45u8, 0x71u8, 0x75u8, 0x61u8, 0x6Cu8] {
        Some(SetOpOp::ConcatEqual)
    } else if b == seq![0x44u8, 0x69u8, 0x76u8, 0x45u8, 0x71u8, 0x75u8, 0x61u8, 0x6Cu8] {
        Some(SetOpOp::DivEqual)
    } else if b == seq![0x4Du8, 0x69u8, 0x6Eu8, 0x75u8, 0x73u8, 0x45u8, 0x71u8, 0x75u8, 0x61u8, 0x6Cu8] {
        Some(SetOpOp::MinusEqual)
    } else if b == seq![0x4Du8, 0x6Fu8, 0x64u8, 0x45u8, 0x71u8, 0x75u8, 0x61u8, 0x6Cu8] {
        Some(SetOpOp::ModEqual)
    } else if b == seq![0x4Du8, 0x75u8, 0x6Cu8, 0x45u8, 0x71u8, 0x75u8, 0x61u8, 0x6Cu8] {
        Some(SetOpOp::MulEqual)
    } else if b == seq![0x4Fu8, 0x72u8, 0x45u8, 0x71u8, 0x75u8, 0x61u8, 0x6Cu8] {
        Some(SetOpOp::OrEqual)
    } else if b == seq![0x50u8, 0x6Cu8, 0x75u8, 0x73u8, 0x45u8, 0x71u8, 0x75u8, 0x61u8, 0x6Cu8] {
        Some(SetOpOp::PlusEqual)
    } else if b == seq![0x50u8, 0x6Fu8, 0x77u8, 0x45u8, 0x71u8, 0x75u8, 0x61u8, 0x6Cu8] {
        Some(SetOpOp::PowEqual)
    } else if b == seq![0x53u8, 0x6Cu8, 0x45u8, 0x71u8, 0x75u8, 0x61u8, 0x6Cu8] {
        Some(SetOpOp::SlEqual)
    } else if b == seq![0x53u8, 0x72u8, 0x45u8, 0x71u8, 0x75u8, 0x61u8, 0x6Cu8] {
        Some(SetOpOp::SrEqual)
    } else if b == seq![0x58u8, 0x6Fu8, 0x72u8, 0x45u8, 0x71u8, 0x75u8, 0x61u8, 0x6Cu8] {
        Some(SetOpOp::XorEqual)
    } else {
        Option::None
    }
}

/// Law: every variant's keyword parses back to that variant, so the
/// table is exhaustive and unambiguous.
pub proof fn lemma_set_op_op_exhaustive(v: SetOpOp)
    ensures
        spec_parse_set_op_op(spec_set_op_op_keyword(v)) == Some(v),
{
    match v {
        SetOpOp::AndEqual => {
            assert(spec_parse_set_op_op(seq![0x41u8, 0x6Eu8, 0x64u8, 0x45u8, 0x71u8, 0x75u8, 0x61u8, 0x6Cu8]) == Some(SetOpOp::AndEqual));
        },
        SetOpOp::ConcatEqual => {
            assert(seq![0x43u8, 0x6Fu8, 0x6Eu8, 0x63u8, 0x61u8, 0x74u8, 0x45u8, 0x71u8, 0x75u8, 0x61u8, 0x6Cu8] != seq![0x41u8, 0x6Eu8, 0x64u8, 0x45u8, 0x71u8, 0x75u8, 0x61u8, 0x6Cu8]) by {
                assert(seq![0x43u8, 0x6Fu8, 0x6Eu8, 0x63u8, 0x61u8, 0x74u8, 0x45u8, 0x71u8, 0x75u8, 0x61u8, 0x6Cu8].len() != seq![0x41u8, 0x6Eu8, 0x64u8, 0x45u8, 0x71u8, 0x75u8, 0x61u8, 0x6Cu8].len());
            }
            assert(spec_parse_set_op_op(seq![0x43u8, 0x6Fu8, 0x6Eu8, 0x63u8, 0x61u8, 0x74u8, 0x45u8, 0x71u8, 0x75u8, 0x61u8, 0x6Cu8]) == Some(SetOpOp::ConcatEqual));
        },
        SetOpOp::DivEqual => {
            assert(seq![0x44u8, 0x69u8, 0x76u8, 0x45u8, 0x71u8, 0x75u8, 0x61u8, 0x6Cu8] != seq![0x41u8, 0x6Eu8, 0x64u8, 0x45u8, 0x71u8, 0x75u8, 0x61u8, 0x6Cu8]) by {
                assert(seq![0x44u8, 0x69u8, 0x76u8, 0x45u8, 0x71u8, 0x75u8, 0x61u8, 0x6Cu8][0] != seq![0x41u8, 0x6Eu8, 0x64u8, 0x45u8, 0x71u8, 0x75u8, 0x61u8, 0x6Cu8][0]);
            }
            assert(seq![0x44u8, 0x69u8, 0x76u8, 0x45u8, 0x71u8, 0x75u8, 0x61u8, 0x6Cu8] != seq![0x43u8, 0x6Fu8, 0x6Eu8, 0x63u8, 0x61u8, 0x74u8, 0x45u8, 0x71u8, 0x75u8, 0x61u8, 0x6Cu8]) by {
                assert(seq![0x44u8, 0x69u8, 0x76u8, 0x45u8, 0x71u8, 0x75u8, 0x61u8, 0x6Cu8].len() != seq![0x43u8, 0x6Fu8, 0x6Eu8, 0x63u8, 0x61u8, 0x74u8, 0x45u8, 0x71u8, 0x75u8, 0x61u8, 0x6Cu8].len());
            }
            assert(spec_parse_set_op_op(seq![0x44u8, 0x69u8, 0x76u8, 0x45u8, 0x71u8, 0x75u8, 0x61u8, 0x6Cu8]) == Some(SetOpOp::DivEqual));
        },
        SetOpOp::MinusEqual => {
            assert(seq![0x4Du8, 0x69u8, 0x6Eu8, 0x75u8, 0x73u8, 0x45u8, 0x71u8, 0x75u8, 0x61u8, 0x6Cu8] != seq![0x41u8, 0x6Eu8, 0x64u8, 0x45u8, 0x71u8, 0x75u8, 0x61u8, 0x6Cu8]) by {
                assert(seq![0x4Du8, 0x69u8, 0x6Eu8, 0x75u8, 0x73u8, 0x45u8, 0x71u8, 0x75u8, 0x61u8, 0x6Cu8].len() != seq![0x41u8, 0x6Eu8, 0x64u8, 0x45u8, 0x71u8, 0x75u8, 0x61u8, 0x6Cu8].len());
            }
            assert(seq![0x4Du8, 0x69u8, 0x6Eu8, 0x75u8, 0x73u8, 0x45u8, 0x71u8, 0x75u8, 0x61u8, 0x6Cu8] != seq![0x43u8, 0x6Fu8, 0x6Eu8, 0x63u8, 0x61u8, 0x74u8, 0x45u8, 0x71u8, 0x75u8, 0x61u8, 0x6Cu8]) by {
                assert(seq![0x4Du8, 0x69u8, 0x6Eu8, 0x75u8, 0x73u8, 0x45u8, 0x71u8, 0x75u8, 0x61u8, 0x6Cu8].len() != seq![0x43u8, 0x6Fu8, 0x6Eu8, 0x63u8, 0x61u8, 0x74u8, 0x45u8, 0x71u8, 0x75u8, 0x61u8, 0x6Cu8].len());
            }
            assert(seq![0x4Du8, 0x69u8, 0x6Eu8, 0x75u8, 0x73u8, 0x45u8, 0x71u8, 0x75u8, 0x61u8, 0x6Cu8] != seq![0x44u8, 0x69u8, 0x76u8, 0x45u8, 0x71u8, 0x75u8, 0x61u8, 0x6Cu8]) by {
                assert(seq![0x4Du8, 0x69u8, 0x6Eu8, 0x75u8, 0x73u8, 0x45u8, 0x71u8, 0x75u8, 0x61u8, 0x6Cu8].len() != seq![0x44u8, 0x69u8, 0x76u8, 0x45u8, 0x71u8, 0x75u8, 0x61u8, 0x6Cu8].len());
            }
            assert(spec_parse_set_op_op(seq![0x4Du8, 0x69u8, 0x6Eu8, 0x75u8, 0x73u8, 0x45u8, 0x71u8, 0x75u8, 0x61u8, 0x6Cu8]) == Some(SetOpOp::MinusEqual));
        },
        SetOpOp::ModEqual => {
            assert(seq![0x4Du8, 0x6Fu8, 0x64u8, 0x45u8, 0x71u8, 0x75u8, 0x61u8, 0x6Cu8] != seq![0x41u8, 0x6Eu8, 0x64u8, 0x45u8, 0x71u8, 0x75u8, 0x61u8, 0x6Cu8]) by {
                assert(seq![0x4Du8, 0x6Fu8, 0x64u8, 0x45u8, 0x71u8, 0x75u8, 0x61u8, 0x6Cu8][0] != seq![0x41u8, 0x6Eu8, 0x64u8, 0x45u8, 0x71u8, 0x75u8, 0x61u8, 0x6Cu8][0]);
            }
            assert(seq![0x4Du8, 0x6Fu8, 0x64u8, 0x45u8, 0x71u8, 0x75u8, 0x61u8, 0x6Cu8] != seq![0x43u8, 0x6Fu8, 0x6Eu8, 0x63u8, 0x61u8, 0x74u8, 0x45u8, 0x71u8, 0x75u8, 0x61u8, 0x6Cu8]) by {
                assert(seq![0x4Du8, 0x6Fu8, 0x64u8, 0x45u8, 0x71u8, 0x75u8, 0x61u8, 0x6Cu8].len() != seq![0x43u8, 0x6Fu8, 0x6Eu8, 0x63u8, 0x61u8, 0x74u8, 0x45u8, 0x71u8, 0x75u8, 0x61u8, 0x6Cu8].len());
            }
            assert(seq![0x4Du8, 0x6Fu8, 0x64u8, 0x45u8, 0x71u8, 0x75u8, 0x61u8, 0x6Cu8] != seq![0x44u8, 0x69u8, 0x76u8, 0x45u8, 0x71u8, 0x75u8, 0x61u8, 0x6Cu8]) by {
                assert(seq![0x4Du8, 0x6Fu8, 0x64u8, 0x45u8, 0x71u8, 0x75u8, 0x61u8, 0x6Cu8][0] != seq![0x44u8, 0x69u8, 0x76u8, 0x45u8, 0x71u8, 0x75u8, 0x61u8, 0x6Cu8][0]);
            }
            assert(seq![0x4Du8, 0x6Fu8, 0x64u8, 0x45u8, 0x71u8, 0x75u8, 0x61u8, 0x6Cu8] != seq![0x4Du8, 0x69u8, 0x6Eu8, 0x75u8, 0x73u8, 0x45u8, 0x71u8, 0x75u8, 0x61u8, 0x6Cu8]) by {
                assert(seq![0x4Du8, 0x6Fu8, 0x64u8, 0x45u8, 0x71u8, 0x75u8, 0x61u8, 0x6Cu8].len() != seq![0x4Du8, 0x69u8, 0x6Eu8, 0x75u8, 0x73u8, 0x45u8, 0x71u8, 0x75u8, 0x61u8, 0x6Cu8].len());
            }
            assert(spec_parse_set_op_op(seq![0x4Du8, 0x6Fu8, 0x64u8, 0x45u8, 0x71u8, 0x75u8, 0x61u8, 0x6Cu8]) == Some(SetOpOp::ModEqual));
        },
        SetOpOp::MulEqual => {
            assert(seq![0x4Du8, 0x75u8, 0x6Cu8, 0x45u8, 0x71u8, 0x75u8, 0x61u8, 0x6Cu8] != seq![0x41u8, 0x6Eu8, 0x64u8, 0x45u8, 0x71u8, 0x75u8, 0x61u8, 0x6Cu8]) by {
                assert(seq![0x4Du8, 0x75u8, 0x6Cu8, 0x45u8, 0x71u8, 0x75u8, 0x61u8, 0x6Cu8][0] != seq![0x41u8, 0x6Eu8, 0x64u8, 0x45u8, 0x71u8, 0x75u8, 0x61u8, 0x6Cu8][0]);
            }
            assert(seq![0x4Du8, 0x75u8, 0x6Cu8, 0x45u8, 0x71u8, 0x75u8, 0x61u8, 0x6Cu8] != seq![0x43u8, 0x6Fu8, 0x6Eu8, 0x63u8, 0x61u8, 0x74u8, 0x45u8, 0x71u8, 0x75u8, 0x61u8, 0x6Cu8]) by {
                assert(seq![0x4Du8, 0x75u8, 0x6Cu8, 0x45u8, 0x71u8, 0x75u8, 0x61u8, 0x6Cu8].len() != seq![0x43u8, 0x6Fu8, 0x6Eu8, 0x63u8, 0x61u8, 0x74u8, 0x45u8, 0x71u8, 0x75u8, 0x61u8, 0x6Cu8].len());
            }
            assert(seq![0x4Du8, 0x75u8, 0x6Cu8, 0x45u8, 0x71u8, 0x75u8, 0x61u8, 0x6Cu8] != seq![0x44u8, 0x69u8, 0x76u8, 0x45u8, 0x71u8, 0x75u8, 0x61u8, 0x6Cu8]) by {
                assert(seq![0x4Du8, 0x75u8, 0x6Cu8, 0x45u8, 0x71u8, 0x75u8, 0x61u8, 0x6Cu8][0] != seq![0x44u8, 0x69u8, 0x76u8, 0x45u8, 0x71u8, 0x75u8, 0x61u8, 0x6Cu8][0]);
            }
            assert(seq![0x4Du8, 0x75u8, 0x6Cu8, 0x45u8, 0x71u8, 0x75u8, 0x61u8, 0x6Cu8] != seq![0x4Du8, 0x69u8, 0x6Eu8, 0x75u8, 0x73u8, 0x45u8, 0x71u8, 0x75u8, 0x61u8, 0x6Cu8]) by {
                assert(seq![0x4Du8, 0x75u8, 0x6Cu8, 0x45u8, 0x71u8, 0x75u8, 0x61u8, 0x6Cu8].len() != seq![0x4Du8, 0x69u8, 0x6Eu8, 0x75u8, 0x73u8, 0x45u8, 0x71u8, 0x75u8, 0x61u8, 0x6Cu8].len());
            }
            assert(seq![0x4Du8, 0x75u8, 0x6Cu8, 0x45u8, 0x71u8, 0x75u8, 0x61u8, 0x6Cu8] != seq![0x4Du8, 0x6Fu8, 0x64u8, 0x45u8, 0x71u8, 0x75u8, 0x61u8, 0x6Cu8]) by {
                assert(seq![0x4Du8, 0x75u8, 0x6Cu8, 0x45u8, 0x71u8, 0x75u8, 0x61u8, 0x6Cu8][1] != seq![0x4Du8, 0x6Fu8, 0x64u8, 0x45u8, 0x71u8, 0x75u8, 0x61u8, 0x6Cu8][1]);
            }
            assert(spec_parse_set_op_op(seq![0x4Du8, 0x75u8, 0x6Cu8, 0x45u8, 0x71u8, 0x75u8, 0x61u8, 0x6Cu8]) == Some(SetOpOp::MulEqual));
        },
        SetOpOp::OrEqual => {
            assert(seq![0x4Fu8, 0x72u8, 0x45u8, 0x71u8, 0x75u8, 0x61u8, 0x6Cu8] != seq![0x41u8, 0x6Eu8, 0x64u8, 0x45u8, 0x71u8, 0x75u8, 0x61u8, 0x6Cu8]) by {
                assert(seq![0x4Fu8, 0x72u8, 0x45u8, 0x71u8, 0x75u8, 0x61u8, 0x6Cu8].len() != seq![0x41u8, 0x6Eu8, 0x64u8, 0x45u8, 0x71u8, 0x75u8, 0x61u8, 0x6Cu8].len());
            }
            assert(seq![0x4Fu8, 0x72u8, 0x45u8, 0x71u8, 0x75u8, 0x61u8, 0x6Cu8] != seq![0x43u8, 0x6Fu8, 0x6Eu8, 0x63u8, 0x61u8, 0x74u8, 0x45u8, 0x71u8, 0x75u8, 0x61u8, 0x6Cu8]) by {
                assert(seq![0x4Fu8, 0x72u8, 0x45u8, 0x71u8, 0x75u8, 0x61u8, 0x6Cu8].len() != seq![0x43u8, 0x6Fu8, 0x6Eu8, 0x63u8, 0x61u8, 0x74u8, 0x45u8, 0x71u8, 0x75u8, 0x61u8, 0x6Cu8].len());
            }
            assert(seq![0x4Fu8, 0x72u8, 0x45u8, 0x71u8, 0x75u8, 0x61u8, 0x6Cu8] != seq![0x44u8, 0x69u8, 0x76u8, 0x45u8, 0x71u8, 0x75u8, 0x61u8, 0x6Cu8]) by {
                assert(seq![0x4Fu8, 0x72u8, 0x45u8, 0x71u8, 0x75u8, 0x61u8, 0x6Cu8].len() != seq![0x44u8, 0x69u8, 0x76u8, 0x45u8, 0x71u8, 0x75u8, 0x61u8, 0x6Cu8].len());
            }
            assert(seq![0x4Fu8, 0x72u8, 0x45u8, 0x71u8, 0x75u8, 0x61u8, 0x6Cu8] != seq![0x4Du8, 0x69u8, 0x6Eu8, 0x75u8, 0x73u8, 0x45u8, 0x71u8, 0x75u8, 0x61u8, 0x6Cu8]) by {
                assert(seq![0x4Fu8, 0x72u8, 0x45u8, 0x71u8, 0x75u8, 0x61u8, 0x6Cu8].len() != seq![0x4Du8, 0x69u8, 0x6Eu8, 0x75u8, 0x73u8, 0x45u8, 0x71u8, 0x75u8, 0x61u8, 0x6Cu8].len());
            }
            assert(seq![0x4Fu8, 0x72u8, 0x45u8, 0x71u8, 0x75u8, 0x61u8, 0x6Cu8] != seq![0x4Du8, 0x6Fu8, 0x64u8, 0x45u8, 0x71u8, 0x75u8, 0x61u8, 0x6Cu8]) by {
                assert(seq![0x4Fu8, 0x72u8, 0x45u8, 0x71u8, 0x75u8, 0x61u8, 0x6Cu8].len() != seq![0x4Du8, 0x6Fu8, 0x64u8, 0x45u8, 0x71u8, 0x75u8, 0x61u8, 0x6Cu8].len());
            }
            assert(seq![0x4Fu8, 0x72u8, 0x45u8, 0x71u8, 0x75u8, 0x61u8, 0x6Cu8] != seq![0x4Du8, 0x75u8, 0x6Cu8, 0x45u8, 0x71u8, 0x75u8, 0x61u8, 0x6Cu8]) by {
                assert(seq![0x4Fu8, 0x72u8, 0x45u8, 0x71u8, 0x75u8, 0x61u8, 0x6Cu8].len() != seq![0x4Du8, 0x75u8, 0x6Cu8, 0x45u8, 0x71u8, 0x75u8, 0x61u8, 0x6Cu8].len());
            }
            assert(spec_parse_set_op_op(seq![0x4Fu8, 0x72u8, 0x45u8, 0x71u8, 0x75u8, 0x61u8, 0x6Cu8]) == Some(SetOpOp::OrEqual));
        },
        SetOpOp::PlusEqual => {
            assert(seq![0x50u8, 0x6Cu8, 0x75u8, 0x73u8, 0x45u8, 0x71u8, 0x75u8, 0x61u8, 0x6Cu8] != seq![0x41u8, 0x6Eu8, 0x64u8, 0x45u8, 0x71u8, 0x75u8, 0x61u8, 0x6Cu8]) by {
                assert(seq![0x50u8, 0x6Cu8, 0x75u8, 0x73u8, 0x45u8, 0x71u8, 0x75u8, 0x61u8, 0x6Cu8].len() != seq![0x41u8, 0x6Eu8, 0x64u8, 0x45u8, 0x71u8, 0x75u8, 0x61u8, 0x6Cu8].len());
            }
            assert(seq![0x50u8, 0x6Cu8, 0x75u8, 0x73u8, 0x45u8, 0x71u8, 0x75u8, 0x61u8, 0x6Cu8] != seq![0x43u8, 0x6Fu8, 0x6Eu8, 0x63u8, 0x61u8, 0x74u8, 0x45u8, 0x71u8, 0x75u8, 0x61u8, 0x6Cu8]) by {
                assert(seq![0x50u8, 0x6Cu8, 0x75u8, 0x73u8, 0x45u8, 0x71u8, 0x75u8, 0x61u8, 0x6Cu8].len() != seq![0x43u8, 0x6Fu8, 0x6Eu8, 0x63u8, 0x61u8, 0x74u8, 0x45u8, 0x71u8, 0x75u8, 0x61u8, 0x6Cu8].len());
            }
            assert(seq![0x50u8, 0x6Cu8, 0x75u8, 0x73u8, 0x45u8, 0x71u8, 0x75u8, 0x61u8, 0x6Cu8] != seq![0x44u8, 0x69u8, 0x76u8, 0x45u8, 0x71u8, 0x75u8, 0x61u8, 0x6Cu8]) by {
                assert(seq![0x50u8, 0x6Cu8, 0x75u8, 0x73u8, 0x45u8, 0x71u8, 0x75u8, 0x61u8, 0x6Cu8].len() != seq![0x44u8, 0x69u8, 0x76u8, 0x45u8, 0x71u8, 0x75u8, 0x61u8, 0x6Cu8].len());
            }
            assert(seq![0x50u8, 0x6Cu8, 0x75u8, 0x73u8, 0x45u8, 0x71u8, 0x75u8, 0x61u8, 0x6Cu8] != seq![0x4Du8, 0x69u8, 0x6Eu8, 0x75u8, 0x73u8, 0x45u8, 0x71u8, 0x75u8, 0x61u8, 0x6Cu8]) by {
                assert(seq![0x50u8, 0x6Cu8, 0x75u8, 0x73u8, 0x45u8, 0x71u8, 0x75u8, 0x61u8, 0x6Cu8].len() != seq![0x4Du8, 0x69u8, 0x6Eu8, 0x75u8, 0x73u8, 0x45u8, 0x71u8, 0x75u8, 0x61u8, 0x6Cu8].len());
            }
            assert(seq![0x50u8, 0x6Cu8, 0x75u8, 0x73u8, 0x45u8, 0x71u8, 0x75u8, 0x61u8, 0x6Cu8] != seq![0x4Du8, 0x6Fu8, 0x64u8, 0x45u8, 0x71u8, 0x75u8, 0x61u8, 0x6Cu8]) by {
                assert(seq![0x50u8, 0x6Cu8, 0x75u8, 0x73u8, 0x45u8, 0x71u8, 0x75u8, 0x61u8, 0x6Cu8].len() != seq![0x4Du8, 0x6Fu8, 0x64u8, 0x45u8, 0x71u8, 0x75u8, 0x61u8, 0x6Cu8].len());
            }
            assert(seq![0x50u8, 0x6Cu8, 0x75u8, 0x73u8, 0x45u8, 0x71u8, 0x75u8, 0x61u8, 0x6Cu8] != seq![0x4Du8, 0x75u8, 0x6Cu8, 0x45u8, 0x71u8, 0x75u8, 0x61u8, 0x6Cu8]) by {
                assert(seq![0x50u8, 0x6Cu8, 0x75u8, 0x73u8, 0x45u8, 0x71u8, 0x75u8, 0x61u8, 0x6Cu8].len() != seq![0x4Du8, 0x75u8, 0x6Cu8, 0x45u8, 0x71u8, 0x75u8, 0x61u8, 0x6Cu8].len());
            }
            assert(seq![0x50u8, 0x6Cu8, 0x75u8, 0x73u8, 0x45u8, 0x71u8, 0x75u8, 0x61u8, 0x6Cu8] != seq![0x4Fu8, 0x72u8, 0x45u8, 0x71u8, 0x75u8, 0x61u8, 0x6Cu8]) by {
                assert(seq![0x50u8, 0x6Cu8, 0x75u8, 0x73u8, 0x45u8, 0x71u8, 0x75u8, 0x61u8, 0x6Cu8].len() != seq![0x4Fu8, 0x72u8, 0x45u8, 0x71u8, 0x75u8, 0x61u8, 0x6Cu8].len());
            }
            assert(spec_parse_set_op_op(seq![0x50u8, 0x6Cu8, 0x75u8, 0x73u8, 0x45u8, 0x71u8, 0x75u8, 0x61u8, 0x6Cu8]) == Some(SetOpOp::PlusEqual));
        },
        SetOpOp::PowEqual => {
            assert(seq![0x50u8, 0x6Fu8, 0x77u8, 0x45u8, 0x71u8, 0x75u8, 0x61u8, 0x6Cu8] != seq![0x41u8, 0x6Eu8, 0x64u8, 0x45u8, 0x71u8, 0x75u8, 0x61u8, 0x6Cu8]) by {
                assert(seq![0x50u8, 0x6Fu8, 0x77u8, 0x45u8, 0x71u8, 0x75u8, 0x61u8, 0x6Cu8][0] != seq![0x41u8, 0x6Eu8, 0x64u8, 0x45u8, 0x71u8, 0x75u8, 0x61u8, 0x6Cu8][0]);
            }
            assert(seq![0x50u8, 0x6Fu8, 0x77u8, 0x45u8, 0x71u8, 0x75u8, 0x61u8, 0x6Cu8] != seq![0x43u8, 0x6Fu8, 0x6Eu8, 0x63u8, 0x61u8, 0x74u8, 0x45u8, 0x71u8, 0x75u8, 0x61u8, 0x6Cu8]) by {
                assert(seq![0x50u8, 0x6Fu8, 0x77u8, 0x45u8, 0x71u8, 0x75u8, 0x61u8, 0x6Cu8].len() != seq![0x43u8, 0x6Fu8, 0x6Eu8, 0x63u8, 0x61u8, 0x74u8, 0x45u8, 0x71u8, 0x75u8, 0x61u8, 0x6Cu8].len());
            }
            assert(seq![0x50u8, 0x6Fu8, 0x77u8, 0x45u8, 0x71u8, 0x75u8, 0x61u8, 0x6Cu8] != seq![0x44u8, 0x69u8, 0x76u8, 0x45u8, 0x71u8, 0x75u8, 0x61u8, 0x6Cu8]) by {
                assert(seq![0x50u8, 0x6Fu8, 0x77u8, 0x45u8, 0x71u8, 0x75u8, 0x61u8, 0x6Cu8][0] != seq![0x44u8, 0x69u8, 0x76u8, 0x45u8, 0x71u8, 0x75u8, 0x61u8, 0x6Cu8][0]);
            }
            assert(seq![0x50u8, 0x6Fu8, 0x77u8, 0x45u8, 0x71u8, 0x75u8, 0x61u8, 0x6Cu8] != seq![0x4Du8, 0x69u8, 0x6Eu8, 0x75u8, 0x73u8, 0x45u8, 0x71u8, 0x75u8, 0x61u8, 0x6Cu8]) by {
                assert(seq![0x50u8, 0x6Fu8, 0x77u8, 0x45u8, 0x71u8, 0x75u8, 0x61u8, 0x6Cu8].len() != seq![0x4Du8, 0x69u8, 0x6Eu8, 0x75u8, 0x73u8, 0x45u8, 0x71u8, 0x75u8, 0x61u8, 0x6Cu8].len());
            }
            assert(seq![0x50u8, 0x6Fu8, 0x77u8, 0x45u8, 0x71u8, 0x75u8, 0x61u8, 0x6Cu8] != seq![0x4Du8, 0x6Fu8, 0x64u8, 0x45u8, 0x71u8, 0x75u8, 0x61u8, 0x6Cu8]) by {
                assert(seq![0x50u8, 0x6Fu8, 0x77u8, 0x45u8, 0x71u8, 0x75u8, 0x61u8, 0x6Cu8][0] != seq![0x4Du8, 0x6Fu8, 0x64u8, 0x45u8, 0x71u8, 0x75u8, 0x61u8, 0x6Cu8][0]);
            }
            assert(seq![0x50u8, 0x6Fu8, 0x77u8, 0x45u8, 0x71u8, 0x75u8, 0x61u8, 0x6Cu8] != seq![0x4Du8, 0x75u8, 0x6Cu8, 0x45u8, 0x71u8, 0x75u8, 0x61u8, 0x6Cu8]) by {
                assert(seq![0x50u8, 0x6Fu8, 0x77u8, 0x45u8, 0x71u8, 0x75u8, 0x61u8, 0x6Cu8][0] != seq![0x4Du8, 0x75u8, 0x6Cu8, 0x45u8, 0x71u8, 0x75u8, 0x61u8, 0x6Cu8][0]);
            }
            assert(seq![0x50u8, 0x6Fu8, 0x77u8, 0x45u8, 0x71u8, 0x75u8, 0x61u8, 0x6Cu8] != seq![0x4Fu8, 0x72u8, 0x45u8, 0x71u8, 0x75u8, 0x61u8, 0x6Cu8]) by {
                assert(seq![0x50u8, 0x6Fu8, 0x77u8, 0x45u8, 0x71u8, 0x75u8, 0x61u8, 0x6Cu8].len() != seq![0x4Fu8, 0x72u8, 0x45u8, 0x71u8, 0x75u8, 0x61u8, 0x6Cu8].len());
            }
            assert(seq![0x50u8, 0x6Fu8, 0x77u8, 0x45u8, 0x71u8, 0x75u8, 0x61u8, 0x6Cu8] != seq![0x50u8, 0x6Cu8, 0x75u8, 0x73u8, 0x45u8, 0x71u8, 0x75u8, 0x61u8, 0x6Cu8]) by {
                assert(seq![0x50u8, 0x6Fu8, 0x77u8, 0x45u8, 0x71u8, 0x75u8, 0x61u8, 0x6Cu8].len() != seq![0x50u8, 0x6Cu8, 0x75u8, 0x73u8, 0x45u8, 0x71u8, 0x75u8, 0x61u8, 0x6Cu8].len());
            }
            assert(spec_parse_set_op_op(seq![0x50u8, 0x6Fu8, 0x77u8, 0x45u8, 0x71u8, 0x75u8, 0x61u8, 0x6Cu8]) == Some(SetOpOp::PowEqual));
        },
        SetOpOp::SlEqual => {
            assert(seq![0x53u8, 0x6Cu8, 0x45u8, 0x71u8, 0x75u8, 0x61u8, 0x6Cu8] != seq![0x41u8, 0x6Eu8, 0x64u8, 0x45u8, 0x71u8, 0x75u8, 0x61u8, 0x6Cu8]) by {
                assert(seq![0x53u8, 0x6Cu8, 0x45u8, 0x71u8, 0x75u8, 0x61u8, 0x6Cu8].len() != seq![0x41u8, 0x6Eu8, 0x64u8, 0x45u8, 0x71u8, 0x75u8, 0x61u8, 0x6Cu8].len());
            }
            assert(seq![0x53u8, 0x6Cu8, 0x45u8, 0x71u8, 0x75u8, 0x61u8, 0x6Cu8] != seq![0x43u8, 0x6Fu8, 0x6Eu8, 0x63u8, 0x61u8, 0x74u8, 0x45u8, 0x71u8, 0x75u8, 0x61u8, 0x6Cu8]) by {
                assert(seq![0x53u8, 0x6Cu8, 0x45u8, 0x71u8, 0x75u8, 0x61u8, 0x6Cu8].len() != seq![0x43u8, 0x6Fu8, 0x6Eu8, 0x63u8, 0x61u8, 0x74u8, 0x45u8, 0x71u8, 0x75u8, 0x61u8, 0x6Cu8].len());
            }
            assert(seq![0x53u8, 0x6Cu8, 0x45u8, 0x71u8, 0x75u8, 0x61u8, 0x6Cu8] != seq![0x44u8, 0x69u8, 0x76u8, 0x45u8, 0x71u8, 0x75u8, 0x61u8, 0x6Cu8]) by {
                assert(seq![0x53u8, 0x6Cu8, 0x45u8, 0x71u8, 0x75u8, 0x61u8, 0x6Cu8].len() != seq![0x44u8, 0x69u8, 0x76u8, 0x45u8, 0x71u8, 0x75u8, 0x61u8, 0x6Cu8].len());
            }
            assert(seq![0x53u8, 0x6Cu8, 0x45u8, 0x71u8, 0x75u8, 0x61u8, 0x6Cu8] != seq![0x4Du8, 0x69u8, 0x6Eu8, 0x75u8, 0x73u8, 0x45u8, 0x71u8, 0x75u8, 0x61u8, 0x6Cu8]) by {
                assert(seq![0x53u8, 0x6Cu8, 0x45u8, 0x71u8, 0x75u8, 0x61u8, 0x6Cu8].len() != seq![0x4Du8, 0x69u8, 0x6Eu8, 0x75u8, 0x73u8, 0x45u8, 0x71u8, 0x75u8, 0x61u8, 0x6Cu8].len());
            }
            assert(seq![0x53u8, 0x6Cu8, 0x45u8, 0x71u8, 0x75u8, 0x61u8, 0x6Cu8] != seq![0x4Du8, 0x6Fu8, 0x64u8, 0x45u8, 0x71u8, 0x75u8, 0x61u8, 0x6Cu8]) by {
                assert(seq![0x53u8, 0x6Cu8, 0x45u8, 0x71u8, 0x75u8, 0x61u8, 0x6Cu8].len() != seq![0x4Du8, 0x6Fu8, 0x64u8, 0x45u8, 0x71u8, 0x75u8, 0x61u8, 0x6Cu8].len());
            }
            assert(seq![0x53u8, 0x6Cu8, 0x45u8, 0x71u8, 0x75u8, 0x61u8, 0x6Cu8] != seq![0x4Du8, 0x75u8, 0x6Cu8, 0x45u8, 0x71u8, 0x75u8, 0x61u8, 0x6Cu8]) by {
                assert(seq![0x53u8, 0x6Cu8, 0x45u8, 0x71u8, 0x75u8, 0x61u8, 0x6Cu8].len() != seq![0x4Du8, 0x75u8, 0x6Cu8, 0x45u8, 0x71u8, 0x75u8, 0x61u8, 0x6Cu8].len());
            }
            assert(seq![0x53u8, 0x6Cu8, 0x45u8, 0x71u8, 0x75u8, 0x61u8, 0x6Cu8] != seq![0x4Fu8, 0x72u8, 0x45u8, 0x71u8, 0x75u8, 0x61u8, 0x6Cu8]) by {
                assert(seq![0x53u8, 0x6Cu8, 0x45u8, 0x71u8, 0x75u8, 0x61u8, 0x6Cu8][0] != seq![0x4Fu8, 0x72u8, 0x45u8, 0x71u8, 0x75u8, 0x61u8, 0x6Cu8][0]);
            }
            assert(seq![0x53u8, 0x6Cu8, 0x45u8, 0x71u8, 0x75u8, 0x61u8, 0x6Cu8] != seq![0x50u8, 0x6Cu8, 0x75u8, 0x73u8, 0x45u8, 0x71u8, 0x75u8, 0x61u8, 0x6Cu8]) by {
                assert(seq![0x53u8, 0x6Cu8, 0x45u8, 0x71u8, 0x75u8, 0x61u8, 0x6Cu8].len() != seq![0x50u8, 0x6Cu8, 0x75u8, 0x73u8, 0x45u8, 0x71u8, 0x75u8, 0x61u8, 0x6Cu8].len());
            }
            assert(seq![0x53u8, 0x6Cu8, 0x45u8, 0x71u8, 0x75u8, 0x61u8, 0x6Cu8] != seq![0x50u8, 0x6Fu8, 0x77u8, 0x45u8, 0x71u8, 0x75u8, 0x61u8, 0x6Cu8]) by {
                assert(seq![0x53u8, 0x6Cu8, 0x45u8, 0x71u8, 0x75u8, 0x61u8, 0x6Cu8].len() != seq![0x50u8, 0x6Fu8, 0x77u8, 0x45u8, 0x71u8, 0x75u8, 0x61u8, 0x6Cu8].len());
            }
            assert(spec_parse_set_op_op(seq![0x53u8, 0x6Cu8, 0x45u8, 0x71u8, 0x75u8, 0x61u8, 0x6Cu8]) == Some(SetOpOp::SlEqual));
        },
        SetOpOp::SrEqual => {
            assert(seq![0x53u8, 0x72u8, 0x45u8, 0x71u8, 0x75u8, 0x61u8, 0x6Cu8] != seq![0x41u8, 0x6Eu8, 0x64u8, 0x45u8, 0x71u8, 0x75u8, 0x61u8, 0x6Cu8]) by {
                assert(seq![0x53u8, 0x72u8, 0x45u8, 0x71u8, 0x75u8, 0x61u8, 0x6Cu8].len() != seq![0x41u8, 0x6Eu8, 0x64u8, 0x45u8, 0x71u8, 0x75u8, 0x61u8, 0x6Cu8].len());
            }
            assert(seq![0x53u8, 0x72u8, 0x45u8, 0x71u8, 0x75u8, 0x61u8, 0x6Cu8] != seq![0x43u8, 0x6Fu8, 0x6Eu8, 0x63u8, 0x61u8, 0x74u8, 0x45u8, 0x71u8, 0x75u8, 0x61u8, 0x6Cu8]) by {
                assert(seq![0x53u8, 0x72u8, 0x45u8, 0x71u8, 0x75u8, 0x61u8, 0x6Cu8].len() != seq![0x43u8, 0x6Fu8, 0x6Eu8, 0x63u8, 0x61u8, 0x74u8, 0x45u8, 0x71u8, 0x75u8, 0x61u8, 0x6Cu8].len());
            }
            assert(seq![0x53u8, 0x72u8, 0x45u8, 0x71u8, 0x75u8, 0x61u8, 0x6Cu8] != seq![0x44u8, 0x69u8, 0x76u8, 0x45u8, 0x71u8, 0x75u8, 0x61u8, 0x6Cu8]) by {
                assert(seq![0x53u8, 0x72u8, 0x45u8, 0x71u8, 0x75u8, 0x61u8, 0x6Cu8].len() != seq![0x44u8, 0x69u8, 0x76u8, 0x45u8, 0x71u8, 0x75u8, 0x61u8, 0x6Cu8].len());
            }
            assert(seq![0x53u8, 0x72u8, 0x45u8, 0x71u8, 0x75u8, 0x61u8, 0x6Cu8] != seq![0x4Du8, 0x69u8, 0x6Eu8, 0x75u8, 0x73u8, 0x45u8, 0x71u8, 0x75u8, 0x61u8, 0x6Cu8]) by {
                assert(seq![0x53u8, 0x72u8, 0x45u8, 0x71u8, 0x75u8, 0x61u8, 0x6Cu8].len() != seq![0x4Du8, 0x69u8, 0x6Eu8, 0x75u8, 0x73u8, 0x45u8, 0x71u8, 0x75u8, 0x61u8, 0x6Cu8].len());
            }
            assert(seq![0x53u8, 0x72u8, 0x45u8, 0x71u8, 0x75u8, 0x61u8, 0x6Cu8] != seq![0x4Du8, 0x6Fu8, 0x64u8, 0x45u8, 0x71u8, 0x75u8, 0x61u8, 0x6Cu8]) by {
                assert(seq![0x53u8, 0x72u8, 0x45u8, 0x71u8, 0x75u8, 0x61u8, 0x6Cu8].len() != seq![0x4Du8, 0x6Fu8, 0x64u8, 0x45u8, 0x71u8, 0x75u8, 0x61u8, 0x6Cu8].len());
            }
            assert(seq![0x53u8, 0x72u8, 0x45u8, 0x71u8, 0x75u8, 0x61u8, 0x6Cu8] != seq![0x4Du8, 0x75u8, 0x6Cu8, 0x45u8, 0x71u8, 0x75u8, 0x61u8, 0x6Cu8]) by {
                assert(seq![0x53u8, 0x72u8, 0x45u8, 0x71u8, 0x75u8, 0x61u8, 0x6Cu8].len() != seq![0x4Du8, 0x75u8, 0x6Cu8, 0x45u8, 0x71u8, 0x75u8, 0x61u8, 0x6Cu8].len());
            }
            assert(seq![0x53u8, 0x72u8, 0x45u8, 0x71u8, 0x75u8, 0x61u8, 0x6Cu8] != seq![0x4Fu8, 0x72u8, 0x45u8, 0x71u8, 0x75u8, 0x61u8, 0x6Cu8]) by {
                assert(seq![0x53u8, 0x72u8, 0x45u8, 0x71u8, 0x75u8, 0x61u8, 0x6Cu8][0] != seq![0x4Fu8, 0x72u8, 0x45u8, 0x71u8, 0x75u8, 0x61u8, 0x6Cu8][0]);
            }
            assert(seq![0x53u8, 0x72u8, 0x45u8, 0x71u8, 0x75u8, 0x61u8, 0x6Cu8] != seq![0x50u8, 0x6Cu8, 0x75u8, 0x73u8, 0x45u8, 0x71u8, 0x75u8, 0x61u8, 0x6Cu8]) by {
                assert(seq![0x53u8, 0x72u8, 0x45u8, 0x71u8, 0x75u8, 0x61u8, 0x6Cu8].len() != seq![0x50u8, 0x6Cu8, 0x75u8, 0x73u8, 0x45u8, 0x71u8, 0x75u8, 0x61u8, 0x6Cu8].len());
            }
            assert(seq![0x53u8, 0x72u8, 0x45u8, 0x71u8, 0x75u8, 0x61u8, 0x6Cu8] != seq![0x50u8, 0x6Fu8, 0x77u8, 0x45u8, 0x71u8, 0x75u8, 0x61u8, 0x6Cu8]) by {
                assert(seq![0x53u8, 0x72u8, 0x45u8, 0x71u8, 0x75u8, 0x61u8, 0x6Cu8].len() != seq![0x50u8, 0x6Fu8, 0x77u8, 0x45u8, 0x71u8, 0x75u8, 0x61u8, 0x6Cu8].len());
            }
            assert(seq![0x53u8, 0x72u8, 0x45u8, 0x71u8, 0x75u8, 0x61u8, 0x6Cu8] != seq![0x53u8, 0x6Cu8, 0x45u8, 0x71u8, 0x75u8, 0x61u8, 0x6Cu8]) by {
                assert(seq![0x53u8, 0x72u8, 0x45u8, 0x71u8, 0x75u8, 0x61u8, 0x6Cu8][1] != seq![0x53u8, 0x6Cu8, 0x45u8, 0x71u8, 0x75u8, 0x61u8, 0x6Cu8][1]);
            }
            assert(spec_parse_set_op_op(seq![0x53u8, 0x72u8, 0x45u8, 0x71u8, 0x75u8, 0x61u8, 0x6Cu8]) == Some(SetOpOp::SrEqual));
        },
        SetOpOp::XorEqual => {
            assert(seq![0x58u8, 0x6Fu8, 0x72u8, 0x45u8, 0x71u8, 0x75u8, 0x61u8, 0x6Cu8] != seq![0x41u8, 0x6Eu8, 0x64u8, 0x45u8, 0x71u8, 0x75u8, 0x61u8, 0x6Cu8]) by {
                assert(seq![0x58u8, 0x6Fu8, 0x72u8, 0x45u8, 0x71u8, 0x75u8, 0x61u8, 0x6Cu8][0] != seq![0x41u8, 0x6Eu8, 0x64u8, 0x45u8, 0x71u8, 0x75u8, 0x61u8, 0x6Cu8][0]);
            }
            assert(seq![0x58u8, 0x6Fu8, 0x72u8, 0x45u8, 0x71u8, 0x75u8, 0x61u8, 0x6Cu8] != seq![0x43u8, 0x6Fu8, 0x6Eu8, 0x63u8, 0x61u8, 0x74u8, 0x45u8, 0x71u8, 0x75u8, 0x61u8, 0x6Cu8]) by {
                assert(seq![0x58u8, 0x6Fu8, 0x72u8, 0x45u8, 0x71u8, 0x75u8, 0x61u8, 0x6Cu8].len() != seq![0x43u8, 0x6Fu8, 0x6Eu8, 0x63u8, 0x61u8, 0x74u8, 0x45u8, 0x71u8, 0x75u8, 0x61u8, 0x6Cu8].len());
            }
            assert(seq![0x58u8, 0x6Fu8, 0x72u8, 0x45u8, 0x71u8, 0x75u8, 0x61u8, 0x6Cu8] != seq![0x44u8, 0x69u8, 0x76u8, 0x45u8, 0x71u8, 0x75u8, 0x61u8, 0x6Cu8]) by {
                assert(seq![0x58u8, 0x6Fu8, 0x72u8, 0x45u8, 0x71u8, 0x75u8, 0x61u8, 0x6Cu8][0] != seq![0x44u8, 0x69u8, 0x76u8, 0x45u8, 0x71u8, 0x75u8, 0x61u8, 0x6Cu8][0]);
            }
            assert(seq![0x58u8, 0x6Fu8, 0x72u8, 0x45u8, 0x71u8, 0x75u8, 0x61u8, 0x6Cu8] != seq![0x4Du8, 0x69u8, 0x6Eu8, 0x75u8, 0x73u8, 0x45u8, 0x71u8, 0x75u8, 0x61u8, 0x6Cu8]) by {
                assert(seq![0x58u8, 0x6Fu8, 0x72u8, 0x45u8, 0x71u8, 0x75u8, 0x61u8, 0x6Cu8].len() != seq![0x4Du8, 0x69u8, 0x6Eu8, 0x75u8, 0x73u8, 0x45u8, 0x71u8, 0x75u8, 0x61u8, 0x6Cu8].len());
            }
            assert(seq![0x58u8, 0x6Fu8, 0x72u8, 0x45u8, 0x71u8, 0x75u8, 0x61u8, 0x6Cu8] != seq![0x4Du8, 0x6Fu8, 0x64u8, 0x45u8, 0x71u8, 0x75u8, 0x61u8, 0x6Cu8]) by {
                assert(seq![0x58u8, 0x6Fu8, 0x72u8, 0x45u8, 0x71u8, 0x75u8, 0x61u8, 0x6Cu8][0] != seq![0x4Du8, 0x6Fu8, 0x64u8, 0x45u8, 0x71u8, 0x75u8, 0x61u8, 0x6Cu8][0]);
            }
            assert(seq![0x58u8, 0x6Fu8, 0x72u8, 0x45u8, 0x71u8, 0x75u8, 0x61u8, 0x6Cu8] != seq![0x4Du8, 0x75u8, 0x6Cu8, 0x45u8, 0x71u8, 0x75u8, 0x61u8, 0x6Cu8]) by {
                assert(seq![0x58u8, 0x6Fu8, 0x72u8, 0x45u8, 0x71u8, 0x75u8, 0x61u8, 0x6Cu8][0] != seq![0x4Du8, 0x75u8, 0x6Cu8, 0x45u8, 0x71u8, 0x75u8, 0x61u8, 0x6Cu8][0]);
            }
            assert(seq![0x58u8, 0x6Fu8, 0x72u8, 0x45u8, 0x71u8, 0x75u8, 0x61u8, 0x6Cu8] != seq![0x4Fu8, 0x72u8, 0x45u8, 0x71u8, 0x75u8, 0x61u8, 0x6Cu8]) by {
                assert(seq![0x58u8, 0x6Fu8, 0x72u8, 0x45u8, 0x71u8, 0x75u8, 0x61u8, 0x6Cu8].len() != seq![0x4Fu8, 0x72u8, 0x45u8, 0x71u8, 0x75u8, 0x61u8, 0x6Cu8].len());
            }
            assert(seq![0x58u8, 0x6Fu8, 0x72u8, 0x45u8, 0x71u8, 0x75u8, 0x61u8, 0x6Cu8] != seq![0x50u8, 0x6Cu8, 0x75u8, 0x73u8, 0x45u8, 0x71u8, 0x75u8, 0x61u8, 0x6Cu8]) by {
                assert(seq![0x58u8, 0x6Fu8, 0x72u8, 0x45u8, 0x71u8, 0x75u8, 0x61u8, 0x6Cu8].len() != seq![0x50u8, 0x6Cu8, 0x75u8, 0x73u8, 0x45u8, 0x71u8, 0x75u8, 0x61u8, 0x6Cu8].len());
            }
            assert(seq![0x58u8, 0x6Fu8, 0x72u8, 0x45u8, 0x71u8, 0x75u8, 0x61u8, 0x6Cu8] != seq![0x50u8, 0x6Fu8, 0x77u8, 0x45u8, 0x71u8, 0x75u8, 0x61u8, 0x6Cu8]) by {
                assert(seq![0x58u8, 0x6Fu8, 0x72u8, 0x45u8, 0x71u8, 0x75u8, 0x61u8, 0x6Cu8][0] != seq![0x50u8, 0x6Fu8, 0x77u8, 0x45u8, 0x71u8, 0x75u8, 0x61u8, 0x6Cu8][0]);
            }
            assert(seq![0x58u8, 0x6Fu8, 0x72u8, 0x45u8, 0x71u8, 0x75u8, 0x61u8, 0x6Cu8] != seq![0x53u8, 0x6Cu8, 0x45u8, 0x71u8, 0x75u8, 0x61u8, 0x6Cu8]) by {
                assert(seq![0x58u8, 0x6Fu8, 0x72u8, 0x45u8, 0x71u8, 0x75u8, 0x61u8, 0x6Cu8].len() != seq![0x53u8, 0x6Cu8, 0x45u8, 0x71u8, 0x75u8, 0x61u8, 0x6Cu8].len());
            }
            assert(seq![0x58u8, 0x6Fu8, 0x72u8, 0x45u8, 0x71u8, 0x75u8, 0x61u8, 0x6Cu8] != seq![0x53u8, 0x72u8, 0x45u8, 0x71u8, 0x75u8, 0x61u8, 0x6Cu8]) by {
                assert(seq![0x58u8, 0x6Fu8, 0x72u8, 0x45u8, 0x71u8, 0x75u8, 0x61u8, 0x6Cu8].len() != seq![0x53u8, 0x72u8, 0x45u8, 0x71u8, 0x75u8, 0x61u8, 0x6Cu8].len());
            }
            assert(spec_parse_set_op_op(seq![0x58u8, 0x6Fu8, 0x72u8, 0x45u8, 0x71u8, 0x75u8, 0x61u8, 0x6Cu8]) == Some(SetOpOp::XorEqual));
        },
    }
}

/// Decode one `SetOpOp` keyword.
pub fn assemble_set_op_op(c: &mut TokenCursor) -> (r: Result<SetOpOp, ParseError>)
    requires
        old(c).wf(),
    ensures
        final(c).wf(),
        final(c).toks() == old(c).toks(),
        (r is Ok) <==> (old(c).at() < old(c).toks().len() && (match old(c).toks()[old(c).at()] {
            Token::Identifier(b, _) => spec_parse_set_op_op(b@) is Some,
            _ => false,
        })),
        r matches Ok(v) ==> final(c).at() == old(c).at() + 1 && (match old(c).toks()[old(c).at()] {
            Token::Identifier(b, _) => spec_parse_set_op_op(b@) == Some(v),
            _ => false,
        }),
        r matches Err(e) ==> (match e.tok {
            Some(t2) => old(c).at() < old(c).toks().len() && token_den(t2) == token_den(
                old(c).toks()[old(c).at()],
            ) && e.pos == spec_token_pos(old(c).toks()[old(c).at()]),
            Option::None => old(c).at() >= old(c).toks().len() && e.kind
                == ParseErrorKind::UnexpectedEnd,
        }),
{
    let pos = c.here();
    match c.next() {
        Some(Token::Identifier(b, p)) => {
            let p = *p;
            let k_andequal: [u8; 8] = [0x41, 0x6E, 0x64, 0x45, 0x71, 0x75, 0x61, 0x6C];
            if bytes_eq(b.as_slice(), k_andequal.as_slice()) {
                proof {
                    assert(b@ =~= seq![0x41u8, 0x6Eu8, 0x64u8, 0x45u8, 0x71u8, 0x75u8, 0x61u8, 0x6Cu8]);
                }
                return Ok(SetOpOp::AndEqual);
            }
            let k_concatequal: [u8; 11] = [0x43, 0x6F, 0x6E, 0x63, 0x61, 0x74, 0x45, 0x71, 0x75, 0x61, 0x6C];
            if bytes_eq(b.as_slice(), k_concatequal.as_slice()) {
                proof {
                    assert(b@ =~= seq![0x43u8, 0x6Fu8, 0x6Eu8, 0x63u8, 0x61u8, 0x74u8, 0x45u8, 0x71u8, 0x75u8, 0x61u8, 0x6Cu8]);
                }
                return Ok(SetOpOp::ConcatEqual);
            }
            let k_divequal: [u8; 8] = [0x44, 0x69, 0x76, 0x45, 0x71, 0x75, 0x61, 0x6C];
            if bytes_eq(b.as_slice(), k_divequal.as_slice()) {
                proof {
                    assert(b@ =~= seq![0x44u8, 0x69u8, 0x76u8, 0x45u8, 0x71u8, 0x75u8, 0x61u8, 0x6Cu8]);
                }
                return Ok(SetOpOp::DivEqual);
            }
            let k_minusequal: [u8; 10] = [0x4D, 0x69, 0x6E, 0x75, 0x73, 0x45, 0x71, 0x75, 0x61, 0x6C];
            if bytes_eq(b.as_slice(), k_minusequal.as_slice()) {
                proof {
                    assert(b@ =~= seq![0x4Du8, 0x69u8, 0x6Eu8, 0x75u8, 0x73u8, 0x45u8, 0x71u8, 0x75u8, 0x61u8, 0x6Cu8]);
                }
                return Ok(SetOpOp::MinusEqual);
            }
            let k_modequal: [u8; 8] = [0x4D, 0x6F, 0x64, 0x45, 0x71, 0x75, 0x61, 0x6C];
            if bytes_eq(b.as_slice(), k_modequal.as_slice()) {
                proof {
                    assert(b@ =~= seq![0x4Du8, 0x6Fu8, 0x64u8, 0x45u8, 0x71u8, 0x75u8, 0x61u8, 0x6Cu8]);
                }
                return Ok(SetOpOp::ModEqual);
            }
            let k_mulequal: [u8; 8] = [0x4D, 0x75, 0x6C, 0x45, 0x71, 0x75, 0x61, 0x6C];
            if bytes_eq(b.as_slice(), k_mulequal.as_slice()) {
                proof {
                    assert(b@ =~= seq![0x4Du8, 0x75u8, 0x6Cu8, 0x45u8, 0x71u8, 0x75u8, 0x61u8, 0x6Cu8]);
                }
                return Ok(SetOpOp::MulEqual);
            }
            let k_orequal: [u8; 7] = [0x4F, 0x72, 0x45, 0x71, 0x75, 0x61, 0x6C];
            if bytes_eq(b.as_slice(), k_orequal.as_slice()) {
                proof {
                    assert(b@ =~= seq![0x4Fu8, 0x72u8, 0x45u8, 0x71u8, 0x75u8, 0x61u8, 0x6Cu8]);
                }
                return Ok(SetOpOp::OrEqual);
            }
            let k_plusequal: [u8; 9] = [0x50, 0x6C, 0x75, 0x73, 0x45, 0x71, 0x75, 0x61, 0x6C];
            if bytes_eq(b.as_slice(), k_plusequal.as_slice()) {
                proof {
                    assert(b@ =~= seq![0x50u8, 0x6Cu8, 0x75u8, 0x73u8, 0x45u8, 0x71u8, 0x75u8, 0x61u8, 0x6Cu8]);
                }
                return Ok(SetOpOp::PlusEqual);
            }
            let k_powequal: [u8; 8] = [0x50, 0x6F, 0x77, 0x45, 0x71, 0x75, 0x61, 0x6C];
            if bytes_eq(b.as_slice(), k_powequal.as_slice()) {
                proof {
                    assert(b@ =~= seq![0x50u8, 0x6Fu8, 0x77u8, 0x45u8, 0x71u8, 0x75u8, 0x61u8, 0x6Cu8]);
                }
                return Ok(SetOpOp::PowEqual);
            }
            let k_slequal: [u8; 7] = [0x53, 0x6C, 0x45, 0x71, 0x75, 0x61, 0x6C];
            if bytes_eq(b.as_slice(), k_slequal.as_slice()) {
                proof {
                    assert(b@ =~= seq![0x53u8, 0x6Cu8, 0x45u8, 0x71u8, 0x75u8, 0x61u8, 0x6Cu8]);
                }
                return Ok(SetOpOp::SlEqual);
            }
            let k_srequal: [u8; 7] = [0x53, 0x72, 0x45, 0x71, 0x75, 0x61, 0x6C];
            if bytes_eq(b.as_slice(), k_srequal.as_slice()) {
                proof {
                    assert(b@ =~= seq![0x53u8, 0x72u8, 0x45u8, 0x71u8, 0x75u8, 0x61u8, 0x6Cu8]);
                }
                return Ok(SetOpOp::SrEqual);
            }
            let k_xorequal: [u8; 8] = [0x58, 0x6F, 0x72, 0x45, 0x71, 0x75, 0x61, 0x6C];
            if bytes_eq(b.as_slice(), k_xorequal.as_slice()) {
                proof {
                    assert(b@ =~= seq![0x58u8, 0x6Fu8, 0x72u8, 0x45u8, 0x71u8, 0x75u8, 0x61u8, 0x6Cu8]);
                }
                return Ok(SetOpOp::XorEqual);
            }
            Err(err_ident(ParseErrorKind::UnknownKeyword, b, p))
        },
        Some(t) => Err(err_at(ParseErrorKind::UnexpectedToken, t)),
        Option::None => Err(err_end(pos)),
    }
}

#[derive(Copy, Clone, Debug, PartialEq, Eq, Structural)]
pub enum SetRangeOp {
    Forward,
    Reverse,
}

/// The keyword that names each variant; the match is exhaustive, so
/// every variant has a table entry.
pub open spec fn spec_set_range_op_keyword(v: SetRangeOp) -> Seq<u8> {
    match v {
        SetRangeOp::Forward => seq![0x46u8, 0x6Fu8, 0x72u8, 0x77u8, 0x61u8, 0x72u8, 0x64u8],
        SetRangeOp::Reverse => seq![0x52u8, 0x65u8, 0x76u8, 0x65u8, 0x72u8, 0x73u8, 0x65u8],
    }
}

/// The variant a keyword names, if any.
pub open spec fn spec_parse_set_range_op(b: Seq<u8>) -> Option<SetRangeOp> {
    if b == seq![0x46u8, 0x6Fu8, 0x72u8, 0x77u8, 0x61u8, 0x72u8, 0x64u8] {
        Some(SetRangeOp::Forward)
    } else if b == seq![0x52u8, 0x65u8, 0x76u8, 0x65u8, 0x72u8, 0x73u8, 0x65u8] {
        Some(SetRangeOp::Reverse)
    } else {
        Option::None
    }
}

/// Law: every variant's keyword parses back to that variant, so the
/// table is exhaustive and unambiguous.
pub proof fn lemma_set_range_op_exhaustive(v: SetRangeOp)
    ensures
        spec_parse_set_range_op(spec_set_range_op_keyword(v)) == Some(v),
{
    match v {
        SetRangeOp::Forward => {
            assert(spec_parse_set_range_op(seq![0x46u8, 0x6Fu8, 0x72u8, 0x77u8, 0x61u8, 0x72u8, 0x64u8]) == Some(SetRangeOp::Forward));
        },
        SetRangeOp::Reverse => {
            assert(seq![0x52u8, 0x65u8, 0x76u8, 0x65u8, 0x72u8, 0x73u8, 0x65u8] != seq![0x46u8, 0x6Fu8, 0x72u8, 0x77u8, 0x61u8, 0x72u8, 0x64u8]) by {
                assert(seq![0x52u8, 0x65u8, 0x76u8, 0x65u8, 0x72u8, 0x73u8, 0x65u8][0] != seq![0x46u8, 0x6Fu8, 0x72u8, 0x77u8, 0x61u8, 0x72u8, 0x64u8][0]);
            }
            assert(spec_parse_set_range_op(seq![0x52u8, 0x65u8, 0x76u8, 0x65u8, 0x72u8, 0x73u8, 0x65u8]) == Some(SetRangeOp::Reverse));
        },
    }
}

/// Decode one `SetRangeOp` keyword.
pub fn assemble_set_range_op(c: &mut TokenCursor) -> (r: Result<SetRangeOp, ParseError>)
    requires
        old(c).wf(),
    ensures
        final(c).wf(),
        final(c).toks() == old(c).toks(),
        (r is Ok) <==> (old(c).at() < old(c).toks().len() && (match old(c).toks()[old(c).at()] {
            Token::Identifier(b, _) => spec_parse_set_range_op(b@) is Some,
            _ => false,
        })),
        r matches Ok(v) ==> final(c).at() == old(c).at() + 1 && (match old(c).toks()[old(c).at()] {
            Token::Identifier(b, _) => spec_parse_set_range_op(b@) == Some(v),
            _ => false,
        }),
        r matches Err(e) ==> (match e.tok {
            Some(t2) => old(c).at() < old(c).toks().len() && token_den(t2) == token_den(
                old(c).toks()[old(c).at()],
            ) && e.pos == spec_token_pos(old(c).toks()[old(c).at()]),
            Option::None => old(c).at() >= old(c).toks().len() && e.kind
                == ParseErrorKind::UnexpectedEnd,
        }),
{
    let pos = c.here();
    match c.next() {
        Some(Token::Identifier(b, p)) => {
            let p = *p;
            let k_forward: [u8; 7] = [0x46, 0x6F, 0x72, 0x77, 0x61, 0x72, 0x64];
            if bytes_eq(b.as_slice(), k_forward.as_slice()) {
                proof {
                    assert(b@ =~= seq![0x46u8, 0x6Fu8, 0x72u8, 0x77u8, 0x61u8, 0x72u8, 0x64u8]);
                }
                return Ok(SetRangeOp::Forward);
            }
            let k_reverse: [u8; 7] = [0x52, 0x65, 0x76, 0x65, 0x72, 0x73, 0x65];
            if bytes_eq(b.as_slice(), k_reverse.as_slice()) {
                proof {
                    assert(b@ =~= seq![0x52u8, 0x65u8, 0x76u8, 0x65u8, 0x72u8, 0x73u8, 0x65u8]);
                }
                return Ok(SetRangeOp::Reverse);
            }
            Err(err_ident(ParseErrorKind::UnknownKeyword, b, p))
        },
        Some(t) => Err(err_at(ParseErrorKind::UnexpectedToken, t)),
        Option::None => Err(err_end(pos)),
    }
}

#[derive(Copy, Clone, Debug, PartialEq, Eq, Structural)]
pub enum SilenceOp {
    End,
    Start,
}

/// The keyword that names each variant; the match is exhaustive, so
/// every variant has a table entry.
pub open spec fn spec_silence_op_keyword(v: SilenceOp) -> Seq<u8> {
    match v {
        SilenceOp::End => seq![0x45u8, 0x6Eu8, 0x64u8],
        SilenceOp::Start => seq![0x53u8, 0x74u8, 0x61u8, 0x72u8, 0x74u8],
    }
}

/// The variant a keyword names, if any.
pub open spec fn spec_parse_silence_op(b: Seq<u8>) -> Option<SilenceOp> {
    if b == seq![0x45u8, 0x6Eu8, 0x64u8] {
        Some(SilenceOp::End)
    } else if b == seq![0x53u8, 0x74u8, 0x61u8, 0x72u8, 0x74u8] {
        Some(SilenceOp::Start)
    } else {
        Option::None
    }
}

/// Law: every variant's keyword parses back to that variant, so the
/// table is exhaustive and unambiguous.
pub proof fn lemma_silence_op_exhaustive(v: SilenceOp)
    ensures
        spec_parse_silence_op(spec_silence_op_keyword(v)) == Some(v),
{
    match v {
        SilenceOp::End => {
            assert(spec_parse_silence_op(seq![0x45u8, 0x6Eu8, 0x64u8]) == Some(SilenceOp::End));
        },
        SilenceOp::Start => {
            assert(seq![0x53u8, 0x74u8, 0x61u8, 0x72u8, 0x74u8] != seq![0x45u8, 0x6Eu8, 0x64u8]) by {
                assert(seq![0x53u8, 0x74u8, 0x61u8, 0x72u8, 0x74u8].len() != seq![0x45u8, 0x6Eu8, 0x64u8].len());
            }
            assert(spec_parse_silence_op(seq![0x53u8, 0x74u8, 0x61u8, 0x72u8, 0x74u8]) == Some(SilenceOp::Start));
        },
    }
}

/// Decode one `SilenceOp` keyword.
pub fn assemble_silence_op(c: &mut TokenCursor) -> (r: Result<SilenceOp, ParseError>)
    requires
        old(c).wf(),
    ensures
        final(c).wf(),
        final(c).toks() == old(c).toks(),
        (r is Ok) <==> (old(c).at() < old(c).toks().len() && (match old(c).toks()[old(c).at()] {
            Token::Identifier(b, _) => spec_parse_silence_op(b@) is Some,
            _ => false,
        })),
        r matches Ok(v) ==> final(c).at() == old(c).at() + 1 && (match old(c).toks()[old(c).at()] {
            Token::Identifier(b, _) => spec_parse_silence_op(b@) == Some(v),
            _ => false,
        }),
        r matches Err(e) ==> (match e.tok {
            Some(t2) => old(c).at() < old(c).toks().len() && token_den(t2) == token_den(
                old(c).toks()[old(c).at()],
            ) && e.pos == spec_token_pos(old(c).toks()[old(c).at()]),
            Option::None => old(c).at() >= old(c).toks().len() && e.kind
                == ParseErrorKind::UnexpectedEnd,
        }),
{
    let pos = c.here();
    match c.next() {
        Some(Token::Identifier(b, p)) => {
            let p = *p;
            let k_end: [u8; 3] = [0x45, 0x6E, 0x64];
            if bytes_eq(b.as_slice(), k_end.as_slice()) {
                proof {
                    assert(b@ =~= seq![0x45u8, 0x6Eu8, 0x64u8]);
                }
                return Ok(SilenceOp::End);
            }
            let k_start: [u8; 5] = [0x53, 0x74, 0x61, 0x72, 0x74];
            if bytes_eq(b.as_slice(), k_start.as_slice()) {
                proof {
                    assert(b@ =~= seq![0x53u8, 0x74u8, 0x61u8, 0x72u8, 0x74u8]);
                }
                return Ok(SilenceOp::Start);
            }
            Err(err_ident(ParseErrorKind::UnknownKeyword, b, p))
        },
        Some(t) => Err(err_at(ParseErrorKind::UnexpectedToken, t)),
        Option::None => Err(err_end(pos)),
    }
}

#[derive(Copy, Clone, Debug, PartialEq, Eq, Structural)]
pub enum SpecialClsRef {
    LateBoundCls,
    ParentCls,
    SelfCls,
}

/// The keyword that names each variant; the match is exhaustive, so
/// every variant has a table entry.
pub open spec fn spec_special_cls_ref_keyword(v: SpecialClsRef) -> Seq<u8> {
    match v {
        SpecialClsRef::LateBoundCls => seq![0x4Cu8, 0x61u8, 0x74u8, 0x65u8, 0x42u8, 0x6Fu8, 0x75u8, 0x6Eu8, 0x64u8, 0x43u8, 0x6Cu8, 0x73u8],
        SpecialClsRef::ParentCls => seq![0x50u8, 0x61u8, 0x72u8, 0x65u8, 0x6Eu8, 0x74u8, 0x43u8, 0x6Cu8, 0x73u8],
        SpecialClsRef::SelfCls => seq![0x53u8, 0x65u8, 0x6Cu8, 0x66u8, 0x43u8, 0x6Cu8, 0x73u8],
    }
}

/// The variant a keyword names, if any.
pub open spec fn spec_parse_special_cls_ref(b: Seq<u8>) -> Option<SpecialClsRef> {
    if b == seq![0x4Cu8, 0x61u8, 0x74u8, 0x65u8, 0x42u8, 0x6Fu8, 0x75u8, 0x6Eu8, 0x64u8, 0x43u8, 0x6Cu8, 0x73u8] {
        Some(SpecialClsRef::LateBoundCls)
    } else if b == seq![0x50u8, 0x61u8, 0x72u8, 0x65u8, 0x6Eu8, 0x74u8, 0x43u8, 0x6Cu8, 0x73u8] {
        Some(SpecialClsRef::ParentCls)
    } else if b == seq![0x53u8, 0x65u8, 0x6Cu8, 0x66u8, 0x43u8, 0x6Cu8, 0x73u8] {
        Some(SpecialClsRef::SelfCls)
    } else {
        Option::None
    }
}

/// Law: every variant's keyword parses back to that variant, so the
/// table is exhaustive and unambiguous.
pub proof fn lemma_special_cls_ref_exhaustive(v: SpecialClsRef)
    ensures
        spec_parse_special_cls_ref(spec_special_cls_ref_keyword(v)) == Some(v),
{
    match v {
        SpecialClsRef::LateBoundCls => {
            assert(spec_parse_special_cls_ref(seq![0x4Cu8, 0x61u8, 0x74u8, 0x65u8, 0x42u8, 0x6Fu8, 0x75u8, 0x6Eu8, 0x64u8, 0x43u8, 0x6Cu8, 0x73u8]) == Some(SpecialClsRef::LateBoundCls));
        },
        SpecialClsRef::ParentCls => {
            assert(seq![0x50u8, 0x61u8, 0x72u8, 0x65u8, 0x6Eu8, 0x74u8, 0x43u8, 0x6Cu8, 0x73u8] != seq![0x4Cu8, 0x61u8, 0x74u8, 0x65u8, 0x42u8, 0x6Fu8, 0x75u8, 0x6Eu8, 0x64u8, 0x43u8, 0x6Cu8, 0x73u8]) by {
                assert(seq![0x50u8, 0x61u8, 0x72u8, 0x65u8, 0x6Eu8, 0x74u8, 0x43u8, 0x6Cu8, 0x73u8].len() != seq![0x4Cu8, 0x61u8, 0x74u8, 0x65u8, 0x42u8, 0x6Fu8, 0x75u8, 0x6Eu8, 0x64u8, 0x43u8, 0x6Cu8, 0x73u8].len());
            }
            assert(spec_parse_special_cls_ref(seq![0x50u8, 0x61u8, 0x72u8, 0x65u8, 0x6Eu8, 0x74u8, 0x43u8, 0x6Cu8, 0x73u8]) == Some(SpecialClsRef::ParentCls));
        },
        SpecialClsRef::SelfCls => {
            assert(seq![0x53u8, 0x65u8, 0x6Cu8, 0x66u8, 0x43u8, 0x6Cu8, 0x73u8] != seq![0x4Cu8, 0x61u8, 0x74u8, 0x65u8, 0x42u8, 0x6Fu8, 0x75u8, 0x6Eu8, 0x64u8, 0x43u8, 0x6Cu8, 0x73u8]) by {
                assert(seq![0x53u8, 0x65u8, 0x6Cu8, 0x66u8, 0x43u8, 0x6Cu8, 0x73u8].len() != seq![0x4Cu8, 0x61u8, 0x74u8, 0x65u8, 0x42u8, 0x6Fu8, 0x75u8, 0x6Eu8, 0x64u8, 0x43u8, 0x6Cu8, 0x73u8].len());
            }
            assert(seq![0x53u8, 0x65u8, 0x6Cu8, 0x66u8, 0x43u8, 0x6Cu8, 0x73u8] != seq![0x50u8, 0x61u8, 0x72u8, 0x65u8, 0x6Eu8, 0x74u8, 0x43u8, 0x6Cu8, 0x73u8]) by {
                assert(seq![0x53u8, 0x65u8, 0x6Cu8, 0x66u8, 0x43u8, 0x6Cu8, 0x73u8].len() != seq![0x50u8, 0x61u8, 0x72u8, 0x65u8, 0x6Eu8, 0x74u8, 0x43u8, 0x6Cu8, 0x73u8].len());
            }
            assert(spec_parse_special_cls_ref(seq![0x53u8, 0x65u8, 0x6Cu8, 0x66u8, 0x43u8, 0x6Cu8, 0x73u8]) == Some(SpecialClsRef::SelfCls));
        },
    }
}

/// Decode one `SpecialClsRef` keyword.
pub fn assemble_special_cls_ref(c: &mut TokenCursor) -> (r: Result<SpecialClsRef, ParseError>)
    requires
        old(c).wf(),
    ensures
        final(c).wf(),
        final(c).toks() == old(c).toks(),
        (r is Ok) <==> (old(c).at() < old(c).toks().len() && (match old(c).toks()[old(c).at()] {
            Token::Identifier(b, _) => spec_parse_special_cls_ref(b@) is Some,
            _ => false,
        })),
        r matches Ok(v) ==> final(c).at() == old(c).at() + 1 && (match old(c).toks()[old(c).at()] {
            Token::Identifier(b, _) => spec_parse_special_cls_ref(b@) == Some(v),
            _ => false,
        }),
        r matches Err(e) ==> (match e.tok {
            Some(t2) => old(c).at() < old(c).toks().len() && token_den(t2) == token_den(
                old(c).toks()[old(c).at()],
            ) && e.pos == spec_token_pos(old(c).toks()[old(c).at()]),
            Option::None => old(c).at() >= old(c).toks().len() && e.kind
                == ParseErrorKind::UnexpectedEnd,
        }),
{
    let pos = c.here();
    match c.next() {
        Some(Token::Identifier(b, p)) => {
            let p = *p;
            let k_lateboundcls: [u8; 12] = [0x4C, 0x61, 0x74, 0x65, 0x42, 0x6F, 0x75, 0x6E, 0x64, 0x43, 0x6C, 0x73];
            if bytes_eq(b.as_slice(), k_lateboundcls.as_slice()) {
                proof {
                    assert(b@ =~= seq![0x4Cu8, 0x61u8, 0x74u8, 0x65u8, 0x42u8, 0x6Fu8, 0x75u8, 0x6Eu8, 0x64u8, 0x43u8, 0x6Cu8, 0x73u8]);
                }
                return Ok(SpecialClsRef::LateBoundCls);
            }
            let k_parentcls: [u8; 9] = [0x50, 0x61, 0x72, 0x65, 0x6E, 0x74, 0x43, 0x6C, 0x73];
            if bytes_eq(b.as_slice(), k_parentcls.as_slice()) {
                proof {
                    assert(b@ =~= seq![0x50u8, 0x61u8, 0x72u8, 0x65u8, 0x6Eu8, 0x74u8, 0x43u8, 0x6Cu8, 0x73u8]);
                }
                return Ok(SpecialClsRef::ParentCls);
            }
            let k_selfcls: [u8; 7] = [0x53, 0x65, 0x6C, 0x66, 0x43, 0x6C, 0x73];
            if bytes_eq(b.as_slice(), k_selfcls.as_slice()) {
                proof {
                    assert(b@ =~= seq![0x53u8, 0x65u8, 0x6Cu8, 0x66u8, 0x43u8, 0x6Cu8, 0x73u8]);
                }
                return Ok(SpecialClsRef::SelfCls);
            }
            Err(err_ident(ParseErrorKind::UnknownKeyword, b, p))
        },
        Some(t) => Err(err_at(ParseErrorKind::UnexpectedToken, t)),
        Option::None => Err(err_end(pos)),
    }
}

#[derive(Copy, Clone, Debug, PartialEq, Eq, Structural)]
pub enum TypeStructResolveOp {
    DontResolve,
    Resolve,
}

/// The keyword that names each variant; the match is exhaustive, so
/// every variant has a table entry.
pub open spec fn spec_type_struct_resolve_op_keyword(v: TypeStructResolveOp) -> Seq<u8> {
    match v {
        TypeStructResolveOp::DontResolve => seq![0x44u8, 0x6Fu8, 0x6Eu8, 0x74u8, 0x52u8, 0x65u8, 0x73u8, 0x6Fu8, 0x6Cu8, 0x76u8, 0x65u8],
        TypeStructResolveOp::Resolve => seq![0x52u8, 0x65u8, 0x73u8, 0x6Fu8, 0x6Cu8, 0x76u8, 0x65u8],
    }
}

/// The variant a keyword names, if any.
pub open spec fn spec_parse_type_struct_resolve_op(b: Seq<u8>) -> Option<TypeStructResolveOp> {
    if b == seq![0x44u8, 0x6Fu8, 0x6Eu8, 0x74u8, 0x52u8, 0x65u8, 0x73u8, 0x6Fu8, 0x6Cu8, 0x76u8, 0x65u8] {
        Some(TypeStructResolveOp::DontResolve)
    } else if b == seq![0x52u8, 0x65u8, 0x73u8, 0x6Fu8, 0x6Cu8, 0x76u8, 0x65u8] {
        Some(TypeStructResolveOp::Resolve)
    } else {
        Option::None
    }
}

/// Law: every variant's keyword parses back to that variant, so the
/// table is exhaustive and unambiguous.
pub proof fn lemma_type_struct_resolve_op_exhaustive(v: TypeStructResolveOp)
    ensures
        spec_parse_type_struct_resolve_op(spec_type_struct_resolve_op_keyword(v)) == Some(v),
{
    match v {
        TypeStructResolveOp::DontResolve => {
            assert(spec_parse_type_struct_resolve_op(seq![0x44u8, 0x6Fu8, 0x6Eu8, 0x74u8, 0x52u8, 0x65u8, 0x73u8, 0x6Fu8, 0x6Cu8, 0x76u8, 0x65u8]) == Some(TypeStructResolveOp::DontResolve));
        },
        TypeStructResolveOp::Resolve => {
            assert(seq![0x52u8, 0x65u8, 0x73u8, 0x6Fu8, 0x6Cu8, 0x76u8, 0x65u8] != seq![0x44u8, 0x6Fu8, 0x6Eu8, 0x74u8, 0x52u8, 0x65u8, 0x73u8, 0x6Fu8, 0x6Cu8, 0x76u8, 0x65u8]) by {
                assert(seq![0x52u8, 0x65u8, 0x73u8, 0x6Fu8, 0x6Cu8, 0x76u8, 0x65u8].len() != seq![0x44u8, 0x6Fu8, 0x6Eu8, 0x74u8, 0x52u8, 0x65u8, 0x73u8, 0x6Fu8, 0x6Cu8, 0x76u8, 0x65u8].len());
            }
            assert(spec_parse_type_struct_resolve_op(seq![0x52u8, 0x65u8, 0x73u8, 0x6Fu8, 0x6Cu8, 0x76u8, 0x65u8]) == Some(TypeStructResolveOp::Resolve));
        },
    }
}

/// Decode one `TypeStructResolveOp` keyword.
pub fn assemble_type_struct_resolve_op(c: &mut TokenCursor) -> (r: Result<TypeStructResolveOp, ParseError>)
    requires
        old(c).wf(),
    ensures
        final(c).wf(),
        final(c).toks() == old(c).toks(),
        (r is Ok) <==> (old(c).at() < old(c).toks().len() && (match old(c).toks()[old(c).at()] {
            Token::Identifier(b, _) => spec_parse_type_struct_resolve_op(b@) is Some,
            _ => false,
        })),
        r matches Ok(v) ==> final(c).at() == old(c).at() + 1 && (match old(c).toks()[old(c).at()] {
            Token::Identifier(b, _) => spec_parse_type_struct_resolve_op(b@) == Some(v),
            _ => false,
        }),
        r matches Err(e) ==> (match e.tok {
            Some(t2) => old(c).at() < old(c).toks().len() && token_den(t2) == token_den(
                old(c).toks()[old(c).at()],
            ) && e.pos == spec_token_pos(old(c).toks()[old(c).at()]),
            Option::None => old(c).at() >= old(c).toks().len() && e.kind
                == ParseErrorKind::UnexpectedEnd,
        }),
{
    let pos = c.here();
    match c.next() {
        Some(Token::Identifier(b, p)) => {
            let p = *p;
            let k_dontresolve: [u8; 11] = [0x44, 0x6F, 0x6E, 0x74, 0x52, 0x65, 0x73, 0x6F, 0x6C, 0x76, 0x65];
            if bytes_eq(b.as_slice(), k_dontresolve.as_slice()) {
                proof {
                    assert(b@ =~= seq![0x44u8, 0x6Fu8, 0x6Eu8, 0x74u8, 0x52u8, 0x65u8, 0x73u8, 0x6Fu8, 0x6Cu8, 0x76u8, 0x65u8]);
                }
                return Ok(TypeStructResolveOp::DontResolve);
            }
            let k_resolve: [u8; 7] = [0x52, 0x65, 0x73, 0x6F, 0x6C, 0x76, 0x65];
            if bytes_eq(b.as_slice(), k_resolve.as_slice()) {
                proof {
                    assert(b@ =~= seq![0x52u8, 0x65u8, 0x73u8, 0x6Fu8, 0x6Cu8, 0x76u8, 0x65u8]);
                }
                return Ok(TypeStructResolveOp::Resolve);
            }
            Err(err_ident(ParseErrorKind::UnknownKeyword, b, p))
        },
        Some(t) => Err(err_at(ParseErrorKind::UnexpectedToken, t)),
        Option::None => Err(err_end(pos)),
    }
}

#[derive(Copy, Clone, Debug, PartialEq, Eq, Structural)]
pub enum TypeStructEnforceKind {
    Deep,
    Shallow,
}

/// The keyword that names each variant; the match is exhaustive, so
/// every variant has a table entry.
pub open spec fn spec_type_struct_enforce_kind_keyword(v: TypeStructEnforceKind) -> Seq<u8> {
    match v {
        TypeStructEnforceKind::Deep => seq![0x44u8, 0x65u8, 0x65u8, 0x70u8],
        TypeStructEnforceKind::Shallow => seq![0x53u8, 0x68u8, 0x61u8, 0x6Cu8, 0x6Cu8, 0x6Fu8, 0x77u8],
    }
}

/// The variant a keyword names, if any.
pub open spec fn spec_parse_type_struct_enforce_kind(b: Seq<u8>) -> Option<TypeStructEnforceKind> {
    if b == seq![0x44u8, 0x65u8, 0x65u8, 0x70u8] {
        Some(TypeStructEnforceKind::Deep)
    } else if b == seq![0x53u8, 0x68u8, 0x61u8, 0x6Cu8, 0x6Cu8, 0x6Fu8, 0x77u8] {
        Some(TypeStructEnforceKind::Shallow)
    } else {
        Option::None
    }
}

/// Law: every variant's keyword parses back to that variant, so the
/// table is exhaustive and unambiguous.
pub proof fn lemma_type_struct_enforce_kind_exhaustive(v: TypeStructEnforceKind)
    ensures
        spec_parse_type_struct_enforce_kind(spec_type_struct_enforce_kind_keyword(v)) == Some(v),
{
    match v {
        TypeStructEnforceKind::Deep => {
            assert(spec_parse_type_struct_enforce_kind(seq![0x44u8, 0x65u8, 0x65u8, 0x70u8]) == Some(TypeStructEnforceKind::Deep));
        },
        TypeStructEnforceKind::Shallow => {
            assert(seq![0x53u8, 0x68u8, 0x61u8, 0x6Cu8, 0x6Cu8, 0x6Fu8, 0x77u8] != seq![0x44u8, 0x65u8, 0x65u8, 0x70u8]) by {
                assert(seq![0x53u8, 0x68u8, 0x61u8, 0x6Cu8, 0x6Cu8, 0x6Fu8, 0x77u8].len() != seq![0x44u8, 0x65u8, 0x65u8, 0x70u8].len());
            }
            assert(spec_parse_type_struct_enforce_kind(seq![0x53u8, 0x68u8, 0x61u8, 0x6Cu8, 0x6Cu8, 0x6Fu8, 0x77u8]) == Some(TypeStructEnforceKind::Shallow));
        },
    }
}

/// Decode one `TypeStructEnforceKind` keyword.
pub fn assemble_type_struct_enforce_kind(c: &mut TokenCursor) -> (r: Result<TypeStructEnforceKind, ParseError>)
    requires
        old(c).wf(),
    ensures
        final(c).wf(),
        final(c).toks() == old(c).toks(),
        (r is Ok) <==> (old(c).at() < old(c).toks().len() && (match old(c).toks()[old(c).at()] {
            Token::Identifier(b, _) => spec_parse_type_struct_enforce_kind(b@) is Some,
            _ => false,
        })),
        r matches Ok(v) ==> final(c).at() == old(c).at() + 1 && (match old(c).toks()[old(c).at()] {
            Token::Identifier(b, _) => spec_parse_type_struct_enforce_kind(b@) == Some(v),
            _ => false,
        }),
        r matches Err(e) ==> (match e.tok {
            Some(t2) => old(c).at() < old(c).toks().len() && token_den(t2) == token_den(
                old(c).toks()[old(c).at()],
            ) && e.pos == spec_token_pos(old(c).toks()[old(c).at()]),
            Option::None => old(c).at() >= old(c).toks().len() && e.kind
                == ParseErrorKind::UnexpectedEnd,
        }),
{
    let pos = c.here();
    match c.next() {
        Some(Token::Identifier(b, p)) => {
            let p = *p;
            let k_deep: [u8; 4] = [0x44, 0x65, 0x65, 0x70];
            if bytes_eq(b.as_slice(), k_deep.as_slice()) {
                proof {
                    assert(b@ =~= seq![0x44u8, 0x65u8, 0x65u8, 0x70u8]);
                }
                return Ok(TypeStructEnforceKind::Deep);
            }
            let k_shallow: [u8; 7] = [0x53, 0x68, 0x61, 0x6C, 0x6C, 0x6F, 0x77];
            if bytes_eq(b.as_slice(), k_shallow.as_slice()) {
                proof {
                    assert(b@ =~= seq![0x53u8, 0x68u8, 0x61u8, 0x6Cu8, 0x6Cu8, 0x6Fu8, 0x77u8]);
                }
                return Ok(TypeStructEnforceKind::Shallow);
            }
            Err(err_ident(ParseErrorKind::UnknownKeyword, b, p))
        },
        Some(t) => Err(err_at(ParseErrorKind::UnexpectedToken, t)),
        Option::None => Err(err_end(pos)),
    }
}

#[derive(Copy, Clone, Debug, PartialEq, Eq, Structural)]
pub enum AsTypeStructExceptionKind {
    ErrorKind,
    Typehint,
}

/// The keyword that names each variant; the match is exhaustive, so
/// every variant has a table entry.
pub open spec fn spec_as_type_struct_exception_kind_keyword(v: AsTypeStructExceptionKind) -> Seq<u8> {
    match v {
        AsTypeStructExceptionKind::ErrorKind => seq![0x45u8, 0x72u8, 0x72u8, 0x6Fu8, 0x72u8],
        AsTypeStructExceptionKind::Typehint => seq![0x54u8, 0x79u8, 0x70u8, 0x65u8, 0x68u8, 0x69u8, 0x6Eu8, 0x74u8],
    }
}

/// The variant a keyword names, if any.
pub open spec fn spec_parse_as_type_struct_exception_kind(b: Seq<u8>) -> Option<AsTypeStructExceptionKind> {
    if b == seq![0x45u8, 0x72u8, 0x72u8, 0x6Fu8, 0x72u8] {
        Some(AsTypeStructExceptionKind::ErrorKind)
    } else if b == seq![0x54u8, 0x79u8, 0x70u8, 0x65u8, 0x68u8, 0x69u8, 0x6Eu8, 0x74u8] {
        Some(AsTypeStructExceptionKind::Typehint)
    } else {
        Option::None
    }
}

/// Law: every variant's keyword parses back to that variant, so the
/// table is exhaustive and unambiguous.
pub proof fn lemma_as_type_struct_exception_kind_exhaustive(v: AsTypeStructExceptionKind)
    ensures
        spec_parse_as_type_struct_exception_kind(spec_as_type_struct_exception_kind_keyword(v)) == Some(v),
{
    match v {
        AsTypeStructExceptionKind::ErrorKind => {
            assert(spec_parse_as_type_struct_exception_kind(seq![0x45u8, 0x72u8, 0x72u8, 0x6Fu8, 0x72u8]) == Some(AsTypeStructExceptionKind::ErrorKind));
        },
        AsTypeStructExceptionKind::Typehint => {
            assert(seq![0x54u8, 0x79u8, 0x70u8, 0x65u8, 0x68u8, 0x69u8, 0x6Eu8, 0x74u8] != seq![0x45u8, 0x72u8, 0x72u8, 0x6Fu8, 0x72u8]) by {
                assert(seq![0x54u8, 0x79u8, 0x70u8, 0x65u8, 0x68u8, 0x69u8, 0x6Eu8, 0x74u8].len() != seq![0x45u8, 0x72u8, 0x72u8, 0x6Fu8, 0x72u8].len());
            }
            assert(spec_parse_as_type_struct_exception_kind(seq![0x54u8, 0x79u8, 0x70u8, 0x65u8, 0x68u8, 0x69u8, 0x6Eu8, 0x74u8]) == Some(AsTypeStructExceptionKind::Typehint));
        },
    }
}

/// Decode one `AsTypeStructExceptionKind` keyword.
pub fn assemble_as_type_struct_exception_kind(c: &mut TokenCursor) -> (r: Result<AsTypeStructExceptionKind, ParseError>)
    requires
        old(c).wf(),
    ensures
        final(c).wf(),
        final(c).toks() == old(c).toks(),
        (r is Ok) <==> (old(c).at() < old(c).toks().len() && (match old(c).toks()[old(c).at()] {
            Token::Identifier(b, _) => spec_parse_as_type_struct_exception_kind(b@) is Some,
            _ => false,
        })),
        r matches Ok(v) ==> final(c).at() == old(c).at() + 1 && (match old(c).toks()[old(c).at()] {
            Token::Identifier(b, _) => spec_parse_as_type_struct_exception_kind(b@) == Some(v),
            _ => false,
        }),
        r matches Err(e) ==> (match e.tok {
            Some(t2) => old(c).at() < old(c).toks().len() && token_den(t2) == token_den(
                old(c).toks()[old(c).at()],
            ) && e.pos == spec_token_pos(old(c).toks()[old(c).at()]),
            Option::None => old(c).at() >= old(c).toks().len() && e.kind
                == ParseErrorKind::UnexpectedEnd,
        }),
{
    let pos = c.here();
    match c.next() {
        Some(Token::Identifier(b, p)) => {
            let p = *p;
            let k_errorkind: [u8; 5] = [0x45, 0x72, 0x72, 0x6F, 0x72];
            if bytes_eq(b.as_slice(), k_errorkind.as_slice()) {
                proof {
                    assert(b@ =~= seq![0x45u8, 0x72u8, 0x72u8, 0x6Fu8, 0x72u8]);
                }
                return Ok(AsTypeStructExceptionKind::ErrorKind);
            }
            let k_typehint: [u8; 8] = [0x54, 0x79, 0x70, 0x65, 0x68, 0x69, 0x6E, 0x74];
            if bytes_eq(b.as_slice(), k_typehint.as_slice()) {
                proof {
                    assert(b@ =~= seq![0x54u8, 0x79u8, 0x70u8, 0x65u8, 0x68u8, 0x69u8, 0x6Eu8, 0x74u8]);
                }
                return Ok(AsTypeStructExceptionKind::Typehint);
            }
            Err(err_ident(ParseErrorKind::UnknownKeyword, b, p))
        },
        Some(t) => Err(err_at(ParseErrorKind::UnexpectedToken, t)),
        Option::None => Err(err_end(pos)),
    }
}

#[derive(Copy, Clone, Debug, PartialEq, Eq, Structural)]
pub enum ContCheckOp {
    IgnoreStarted,
    CheckStarted,
}

/// The keyword that names each variant; the match is exhaustive, so
/// every variant has a table entry.
pub open spec fn spec_cont_check_op_keyword(v: ContCheckOp) -> Seq<u8> {
    match v {
        ContCheckOp::IgnoreStarted => seq![0x49u8, 0x67u8, 0x6Eu8, 0x6Fu8, 0x72u8, 0x65u8, 0x53u8, 0x74u8, 0x61u8, 0x72u8, 0x74u8, 0x65u8, 0x64u8],
        ContCheckOp::CheckStarted => seq![0x43u8, 0x68u8, 0x65u8, 0x63u8, 0x6Bu8, 0x53u8, 0x74u8, 0x61u8, 0x72u8, 0x74u8, 0x65u8, 0x64u8],
    }
}

/// The variant a keyword names, if any.
pub open spec fn spec_parse_cont_check_op(b: Seq<u8>) -> Option<ContCheckOp> {
    if b == seq![0x49u8, 0x67u8, 0x6Eu8, 0x6Fu8, 0x72u8, 0x65u8, 0x53u8, 0x74u8, 0x61u8, 0x72u8, 0x74u8, 0x65u8, 0x64u8] {
        Some(ContCheckOp::IgnoreStarted)
    } else if b == seq![0x43u8, 0x68u8, 0x65u8, 0x63u8, 0x6Bu8, 0x53u8, 0x74u8, 0x61u8, 0x72u8, 0x74u8, 0x65u8, 0x64u8] {
        Some(ContCheckOp::CheckStarted)
    } else {
        Option::None
    }
}

/// Law: every variant's keyword parses back to that variant, so the
/// table is exhaustive and unambiguous.
pub proof fn lemma_cont_check_op_exhaustive(v: ContCheckOp)
    ensures
        spec_parse_cont_check_op(spec_cont_check_op_keyword(v)) == Some(v),
{
    match v {
        ContCheckOp::IgnoreStarted => {
            assert(spec_parse_cont_check_op(seq![0x49u8, 0x67u8, 0x6Eu8, 0x6Fu8, 0x72u8, 0x65u8, 0x53u8, 0x74u8, 0x61u8, 0x72u8, 0x74u8, 0x65u8, 0x64u8]) == Some(ContCheckOp::IgnoreStarted));
        },
        ContCheckOp::CheckStarted => {
            assert(seq![0x43u8, 0x68u8, 0x65u8, 0x63u8, 0x6Bu8, 0x53u8, 0x74u8, 0x61u8, 0x72u8, 0x74u8, 0x65u8, 0x64u8] != seq![0x49u8, 0x67u8, 0x6Eu8, 0x6Fu8, 0x72u8, 0x65u8, 0x53u8, 0x74u8, 0x61u8, 0x72u8, 0x74u8, 0x65u8, 0x64u8]) by {
                assert(seq![0x43u8, 0x68u8, 0x65u8, 0x63u8, 0x6Bu8, 0x53u8, 0x74u8, 0x61u8, 0x72u8, 0x74u8, 0x65u8, 0x64u8].len() != seq![0x49u8, 0x67u8, 0x6Eu8, 0x6Fu8, 0x72u8, 0x65u8, 0x53u8, 0x74u8, 0x61u8, 0x72u8, 0x74u8, 0x65u8, 0x64u8].len());
            }
            assert(spec_parse_cont_check_op(seq![0x43u8, 0x68u8, 0x65u8, 0x63u8, 0x6Bu8, 0x53u8, 0x74u8, 0x61u8, 0x72u8, 0x74u8, 0x65u8, 0x64u8]) == Some(ContCheckOp::CheckStarted));
        },
    }
}

/// Decode one `ContCheckOp` keyword.
pub fn assemble_cont_check_op(c: &mut TokenCursor) -> (r: Result<ContCheckOp, ParseError>)
    requires
        old(c).wf(),
    ensures
        final(c).wf(),
        final(c).toks() == old(c).toks(),
        (r is Ok) <==> (old(c).at() < old(c).toks().len() && (match old(c).toks()[old(c).at()] {
            Token::Identifier(b, _) => spec_parse_cont_check_op(b@) is Some,
            _ => false,
        })),
        r matches Ok(v) ==> final(c).at() == old(c).at() + 1 && (match old(c).toks()[old(c).at()] {
            Token::Identifier(b, _) => spec_parse_cont_check_op(b@) == Some(v),
            _ => false,
        }),
        r matches Err(e) ==> (match e.tok {
            Some(t2) => old(c).at() < old(c).toks().len() && token_den(t2) == token_den(
                old(c).toks()[old(c).at()],
            ) && e.pos == spec_token_pos(old(c).toks()[old(c).at()]),
            Option::None => old(c).at() >= old(c).toks().len() && e.kind
                == ParseErrorKind::UnexpectedEnd,
        }),
{
    let pos = c.here();
    match c.next() {
        Some(Token::Identifier(b, p)) => {
            let p = *p;
            let k_ignorestarted: [u8; 13] = [0x49, 0x67, 0x6E, 0x6F, 0x72, 0x65, 0x53, 0x74, 0x61, 0x72, 0x74, 0x65, 0x64];
            if bytes_eq(b.as_slice(), k_ignorestarted.as_slice()) {
                proof {
                    assert(b@ =~= seq![0x49u8, 0x67u8, 0x6Eu8, 0x6Fu8, 0x72u8, 0x65u8, 0x53u8, 0x74u8, 0x61u8, 0x72u8, 0x74u8, 0x65u8, 0x64u8]);
                }
                return Ok(ContCheckOp::IgnoreStarted);
            }
            let k_checkstarted: [u8; 12] = [0x43, 0x68, 0x65, 0x63, 0x6B, 0x53, 0x74, 0x61, 0x72, 0x74, 0x65, 0x64];
            if bytes_eq(b.as_slice(), k_checkstarted.as_slice()) {
                proof {
                    assert(b@ =~= seq![0x43u8, 0x68u8, 0x65u8, 0x63u8, 0x6Bu8, 0x53u8, 0x74u8, 0x61u8, 0x72u8, 0x74u8, 0x65u8, 0x64u8]);
                }
                return Ok(ContCheckOp::CheckStarted);
            }
            Err(err_ident(ParseErrorKind::UnknownKeyword, b, p))
        },
        Some(t) => Err(err_at(ParseErrorKind::UnexpectedToken, t)),
        Option::None => Err(err_end(pos)),
    }
}

#[derive(Copy, Clone, Debug, PartialEq, Eq, Structural)]
pub enum SwitchKind {
    Unbounded,
    Bounded,
}

/// The keyword that names each variant; the match is exhaustive, so
/// every variant has a table entry.
pub open spec fn spec_switch_kind_keyword(v: SwitchKind) -> Seq<u8> {
    match v {
        SwitchKind::Unbounded => seq![0x55u8, 0x6Eu8, 0x62u8, 0x6Fu8, 0x75u8, 0x6Eu8, 0x64u8, 0x65u8, 0x64u8],
        SwitchKind::Bounded => seq![0x42u8, 0x6Fu8, 0x75u8, 0x6Eu8, 0x64u8, 0x65u8, 0x64u8],
    }
}

/// The variant a keyword names, if any.
pub open spec fn spec_parse_switch_kind(b: Seq<u8>) -> Option<SwitchKind> {
    if b == seq![0x55u8, 0x6Eu8, 0x62u8, 0x6Fu8, 0x75u8, 0x6Eu8, 0x64u8, 0x65u8, 0x64u8] {
        Some(SwitchKind::Unbounded)
    } else if b == seq![0x42u8, 0x6Fu8, 0x75u8, 0x6Eu8, 0x64u8, 0x65u8, 0x64u8] {
        Some(SwitchKind::Bounded)
    } else {
        Option::None
    }
}

/// Law: every variant's keyword parses back to that variant, so the
/// table is exhaustive and unambiguous.
pub proof fn lemma_switch_kind_exhaustive(v: SwitchKind)
    ensures
        spec_parse_switch_kind(spec_switch_kind_keyword(v)) == Some(v),
{
    match v {
        SwitchKind::Unbounded => {
            assert(spec_parse_switch_kind(seq![0x55u8, 0x6Eu8, 0x62u8, 0x6Fu8, 0x75u8, 0x6Eu8, 0x64u8, 0x65u8, 0x64u8]) == Some(SwitchKind::Unbounded));
        },
        SwitchKind::Bounded => {
            assert(seq![0x42u8, 0x6Fu8, 0x75u8, 0x6Eu8, 0x64u8, 0x65u8, 0x64u8] != seq![0x55u8, 0x6Eu8, 0x62u8, 0x6Fu8, 0x75u8, 0x6Eu8, 0x64u8, 0x65u8, 0x64u8]) by {
                assert(seq![0x42u8, 0x6Fu8, 0x75u8, 0x6Eu8, 0x64u8, 0x65u8, 0x64u8].len() != seq![0x55u8, 0x6Eu8, 0x62u8, 0x6Fu8, 0x75u8, 0x6Eu8, 0x64u8, 0x65u8, 0x64u8].len());
            }
            assert(spec_parse_switch_kind(seq![0x42u8, 0x6Fu8, 0x75u8, 0x6Eu8, 0x64u8, 0x65u8, 0x64u8]) == Some(SwitchKind::Bounded));
        },
    }
}

/// Decode one `SwitchKind` keyword.
pub fn assemble_switch_kind(c: &mut TokenCursor) -> (r: Result<SwitchKind, ParseError>)
    requires
        old(c).wf(),
    ensures
        final(c).wf(),
        final(c).toks() == old(c).toks(),
        (r is Ok) <==> (old(c).at() < old(c).toks().len() && (match old(c).toks()[old(c).at()] {
            Token::Identifier(b, _) => spec_parse_switch_kind(b@) is Some,
            _ => false,
        })),
        r matches Ok(v) ==> final(c).at() == old(c).at() + 1 && (match old(c).toks()[old(c).at()] {
            Token::Identifier(b, _) => spec_parse_switch_kind(b@) == Some(v),
            _ => false,
        }),
        r matches Err(e) ==> (match e.tok {
            Some(t2) => old(c).at() < old(c).toks().len() && token_den(t2) == token_den(
                old(c).toks()[old(c).at()],
            ) && e.pos == spec_token_pos(old(c).toks()[old(c).at()]),
            Option::None => old(c).at() >= old(c).toks().len() && e.kind
                == ParseErrorKind::UnexpectedEnd,
        }),
{
    let pos = c.here();
    match c.next() {
        Some(Token::Identifier(b, p)) => {
            let p = *p;
            let k_unbounded: [u8; 9] = [0x55, 0x6E, 0x62, 0x6F, 0x75, 0x6E, 0x64, 0x65, 0x64];
            if bytes_eq(b.as_slice(), k_unbounded.as_slice()) {
                proof {
                    assert(b@ =~= seq![0x55u8, 0x6Eu8, 0x62u8, 0x6Fu8, 0x75u8, 0x6Eu8, 0x64u8, 0x65u8, 0x64u8]);
                }
                return Ok(SwitchKind::Unbounded);
            }
            let k_bounded: [u8; 7] = [0x42, 0x6F, 0x75, 0x6E, 0x64, 0x65, 0x64];
            if bytes_eq(b.as_slice(), k_bounded.as_slice()) {
                proof {
                    assert(b@ =~= seq![0x42u8, 0x6Fu8, 0x75u8, 0x6Eu8, 0x64u8, 0x65u8, 0x64u8]);
                }
                return Ok(SwitchKind::Bounded);
            }
            Err(err_ident(ParseErrorKind::UnknownKeyword, b, p))
        },
        Some(t) => Err(err_at(ParseErrorKind::UnexpectedToken, t)),
        Option::None => Err(err_end(pos)),
    }
}

} // verus!
