//! The Java back end: one class per struct, enum and tagged union.

use crate::errors::Error;
use crate::ir::data::{
    data_enum_views, enum_views, struct_views, DataEnumView, EnumView,
    IntermediateRepresentation, IrView, StructView,
};
use crate::targets::java::cg_data_enum::enum_data_class_ops;
use crate::targets::java::cg_enum::enum_class_ops;
use crate::targets::java::cg_struct::data_class_ops;
use crate::targets::java::tokens::{java_text, JavaTokens};
use crate::targets::java::writer::run;
use vstd::prelude::*;

pub mod cg_data_enum;
pub mod cg_enum;
pub mod cg_struct;
pub mod cg_utils;
pub mod tokens;
pub mod type_resolver;
pub mod writer;

verus! {

/// A generated Java class: its name and its source text.
#[derive(Debug)]
pub struct JavaClass {
    name: String,
    code: String,
}

/// What a [`JavaClass`] holds.
pub ghost struct JavaClassView {
    pub name: Seq<char>,
    pub code: Seq<char>,
}

impl View for JavaClass {
    type V = JavaClassView;

    closed spec fn view(&self) -> JavaClassView {
        JavaClassView { name: self.name@, code: self.code@ }
    }
}

/// The class named `name` with the source `text`, or the error that stands
/// for source that could not be written.
pub open spec fn class_of(name: Seq<char>, text: Option<Seq<char>>) -> Result<
    JavaClassView,
    Seq<char>,
> {
    match text {
        Some(code) => Ok(JavaClassView { name, code }),
        None => Err("Failed to generate Java code"@),
    }
}

/// A result of generating one class, by the views of what it holds.
pub open spec fn class_result_view(r: Result<JavaClass, Error>) -> Result<
    JavaClassView,
    Seq<char>,
> {
    match r {
        Ok(class) => Ok(class@),
        Err(e) => Err(e@),
    }
}

impl JavaClass {
    /// The class named `name` with the source `code`.
    pub fn new(name: String, code: String) -> (class: Self)
        ensures
            class@ == (JavaClassView { name: name@, code: code@ }),
    {
        JavaClass { name, code }
    }

    /// The class named `name` whose source is `rendered`; an error where no
    /// source was written.
    pub fn from_rendered(name: String, rendered: Option<String>) -> (r: Result<Self, Error>)
        ensures
            class_result_view(r) == class_of(
                name@,
                match rendered {
                    Some(code) => Some(code@),
                    None => None,
                },
            ),
    {
        match rendered {
            Some(code) => Ok(JavaClass::new(name, code)),
            None => Err(Error::new("Failed to generate Java code")),
        }
    }

    /// Writes `tokens` out as the source of the class named `name`.
    pub fn from_tokens(name: String, tokens: JavaTokens) -> (r: Result<Self, Error>)
        ensures
            class_result_view(r) == class_of(name@, java_text(tokens.items())),
    {
        JavaClass::from_rendered(name, tokens.render())
    }

    /// The name of the class, which is also the name of its file.
    pub fn name(&self) -> (s: &str)
        ensures
            s@ == self@.name,
    {
        self.name.as_str()
    }

    /// The source text of the class, without a package declaration.
    pub fn code(&self) -> (s: &str)
        ensures
            s@ == self@.code,
    {
        self.code.as_str()
    }
}

/// The views of a run of classes.
pub open spec fn class_views(classes: Seq<JavaClass>) -> Seq<JavaClassView> {
    classes.map_values(|c: JavaClass| c@)
}

/// What generating each entity of a model gives, in the order of the output:
/// the structs, then the enums, then the tagged unions.
pub open spec fn class_results(ir: IrView) -> Seq<Result<JavaClassView, Seq<char>>> {
    ir.structs.map_values(
        |s: StructView|
            class_of(s.self_type, java_text(run(data_class_ops(s)))),
    ) + ir.enums.map_values(
        |e: EnumView|
            class_of(e.self_type, java_text(run(enum_class_ops(e)))),
    ) + ir.data_enums.map_values(
        |d: DataEnumView|
            class_of(d.self_type, java_text(run(enum_data_class_ops(d)))),
    )
}

/// All of `results` where each is a class, else the first error among them.
pub open spec fn gather(results: Seq<Result<JavaClassView, Seq<char>>>) -> Result<
    Seq<JavaClassView>,
    Seq<char>,
>
    decreases results.len(),
{
    if results.len() == 0 {
        Ok(Seq::empty())
    } else {
        match gather(results.drop_last()) {
            Err(e) => Err(e),
            Ok(classes) => match results.last() {
                Ok(class) => Ok(classes.push(class)),
                Err(e) => Err(e),
            },
        }
    }
}

/// A result of generating all classes, by the views of what it holds.
pub open spec fn classes_result_view(r: Result<Vec<JavaClass>, Error>) -> Result<
    Seq<JavaClassView>,
    Seq<char>,
> {
    match r {
        Ok(classes) => Ok(class_views(classes@)),
        Err(e) => Err(e@),
    }
}

/// Generates the Java classes of a model: one per struct, per enum and per
/// tagged union, in that order. Where one of them cannot be written, no class
/// is returned, only the error.
pub fn generate_java_code(ir: &IntermediateRepresentation) -> (r: Result<Vec<JavaClass>, Error>)
    ensures
        classes_result_view(r) == gather(class_results(ir@)),
{
    let ghost results = class_results(ir@);
    let mut classes: Vec<JavaClass> = Vec::new();
    let structs = ir.structs();
    let enums = ir.enums();
    let data_enums = ir.data_enums();
    assert(results.take(0) =~= Seq::empty());
    assert(class_views(classes@) =~= Seq::empty());
    let mut i: usize = 0;
    while i < structs.len()
        invariant
            i <= structs.len(),
            results == class_results(ir@),
            struct_views(structs@) == ir@.structs,
            gather(results.take(i as int)) == Ok::<Seq<JavaClassView>, Seq<char>>(
                class_views(classes@),
            ),
        decreases structs.len() - i,
    {
        proof {
            assert(structs@[i as int]@ == ir@.structs[i as int]);
            assert(results.take(i + 1).drop_last() =~= results.take(i as int));
        }
        match cg_struct::generate_data_class(&structs[i]) {
            Ok(class) => {
                let ghost before = class_views(classes@);
                classes.push(class);
                assert(class_views(classes@) =~= before.push(class@));
            },
            Err(e) => {
                proof {
                    lemma_gather_error(results, i + 1);
                }
                return Err(e);
            },
        }
        i += 1;
    }
    let mut j: usize = 0;
    while j < enums.len()
        invariant
            j <= enums.len(),
            i == structs.len(),
            results == class_results(ir@),
            struct_views(structs@) == ir@.structs,
            enum_views(enums@) == ir@.enums,
            gather(results.take(i + j)) == Ok::<Seq<JavaClassView>, Seq<char>>(
                class_views(classes@),
            ),
        decreases enums.len() - j,
    {
        proof {
            assert(enums@[j as int]@ == ir@.enums[j as int]);
            assert(results.take(i + j + 1).drop_last() =~= results.take(i + j));
        }
        match cg_enum::generate_enum_class(&enums[j]) {
            Ok(class) => {
                let ghost before = class_views(classes@);
                classes.push(class);
                assert(class_views(classes@) =~= before.push(class@));
            },
            Err(e) => {
                proof {
                    lemma_gather_error(results, i + j + 1);
                }
                return Err(e);
            },
        }
        j += 1;
    }
    let mut k: usize = 0;
    while k < data_enums.len()
        invariant
            k <= data_enums.len(),
            i == structs.len(),
            j == enums.len(),
            results == class_results(ir@),
            struct_views(structs@) == ir@.structs,
            enum_views(enums@) == ir@.enums,
            data_enum_views(data_enums@) == ir@.data_enums,
            gather(results.take(i + j + k)) == Ok::<Seq<JavaClassView>, Seq<char>>(
                class_views(classes@),
            ),
        decreases data_enums.len() - k,
    {
        proof {
            assert(data_enums@[k as int]@ == ir@.data_enums[k as int]);
            assert(results.take(i + j + k + 1).drop_last() =~= results.take(i + j + k));
        }
        match cg_data_enum::generate_enum_data_class(&data_enums[k]) {
            Ok(class) => {
                let ghost before = class_views(classes@);
                classes.push(class);
                assert(class_views(classes@) =~= before.push(class@));
            },
            Err(e) => {
                proof {
                    lemma_gather_error(results, i + j + k + 1);
                }
                return Err(e);
            },
        }
        k += 1;
    }
    assert(results.take(i + j + k) =~= results);
    Ok(classes)
}

/// An error among the first `n` results is the outcome for all of them.
proof fn lemma_gather_error(results: Seq<Result<JavaClassView, Seq<char>>>, n: int)
    requires
        0 <= n <= results.len(),
        gather(results.take(n)) is Err,
    ensures
        gather(results) == gather(results.take(n)),
    decreases results.len() - n,
{
    if n < results.len() {
        assert(results.take(n + 1).drop_last() =~= results.take(n));
        lemma_gather_error(results, n + 1);
    } else {
        assert(results.take(n) =~= results);
    }
}

/// Where all of `results` are classes, [`gather`] returns each of them, in
/// order.
pub proof fn lemma_gather_all(results: Seq<Result<JavaClassView, Seq<char>>>)
    requires
        gather(results) is Ok,
    ensures
        gather(results)->Ok_0.len() == results.len(),
        forall|i: int|
            0 <= i < results.len() ==> results[i] == Ok::<JavaClassView, Seq<char>>(
                #[trigger] gather(results)->Ok_0[i],
            ),
    decreases results.len(),
{
    if results.len() > 0 {
        lemma_gather_all(results.drop_last());
        let front = gather(results.drop_last())->Ok_0;
        let all = gather(results)->Ok_0;
        assert(all == front.push(results.last()->Ok_0));
        assert forall|i: int| 0 <= i < results.len() implies results[i] == Ok::<
            JavaClassView,
            Seq<char>,
        >(#[trigger] all[i]) by {
            if i < results.len() - 1 {
                assert(results.drop_last()[i] == results[i]);
                assert(all[i] == front[i]);
            }
        }
    }
}

/// One class per entity: where generation succeeds, there are as many
/// classes as the model holds structs, enums and tagged unions, and each
/// bears the identifier that its entity is defined under.
pub proof fn lemma_one_class_per_entity(ir: IrView)
    requires
        gather(class_results(ir)) is Ok,
    ensures
        gather(class_results(ir))->Ok_0.len() == ir.structs.len() + ir.enums.len()
            + ir.data_enums.len(),
        forall|i: int|
            0 <= i < ir.structs.len() ==> (#[trigger] gather(class_results(ir))->Ok_0[i]).name
                == ir.structs[i].self_type,
        forall|i: int|
            0 <= i < ir.enums.len() ==> (#[trigger] gather(class_results(ir))->Ok_0[ir.structs.len()
                + i]).name == ir.enums[i].self_type,
        forall|i: int|
            0 <= i < ir.data_enums.len() ==> (#[trigger] gather(
                class_results(ir),
            )->Ok_0[ir.structs.len() + ir.enums.len() + i]).name == ir.data_enums[i].self_type,
{
    let results = class_results(ir);
    let classes = gather(results)->Ok_0;
    lemma_gather_all(results);
    assert forall|i: int| 0 <= i < ir.structs.len() implies (#[trigger] classes[i]).name
        == ir.structs[i].self_type by {
        assert(results[i] == Ok::<JavaClassView, Seq<char>>(classes[i]));
    }
    assert forall|i: int| 0 <= i < ir.enums.len() implies (#[trigger] classes[ir.structs.len()
        + i]).name == ir.enums[i].self_type by {
        let k = ir.structs.len() + i;
        assert(results[k] == Ok::<JavaClassView, Seq<char>>(classes[k]));
    }
    assert forall|i: int| 0 <= i < ir.data_enums.len() implies (#[trigger] classes[ir.structs.len()
        + ir.enums.len() + i]).name == ir.data_enums[i].self_type by {
        let k = ir.structs.len() + ir.enums.len() + i;
        assert(results[k] == Ok::<JavaClassView, Seq<char>>(classes[k]));
    }
}

} // verus!
