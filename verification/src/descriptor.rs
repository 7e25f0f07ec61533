use vstd::prelude::*;

use crate::names::{pascal_case, pascal_of};
use crate::text::{join_strings, join_with};

verus! {

/// One declared parameter of a callable: its identifier and the raw text of
/// its declared type, in declaration order.
pub struct Argument {
    pub name: String,
    pub ty: String,
}

/// Mathematical model of an `Argument`: both parts as character sequences.
#[verifier::ext_equal]
pub struct ArgumentView {
    pub name: Seq<char>,
    pub ty: Seq<char>,
}

impl View for Argument {
    type V = ArgumentView;

    open spec fn view(&self) -> ArgumentView {
        ArgumentView { name: self.name@, ty: self.ty@ }
    }
}

impl DeepView for Argument {
    type V = ArgumentView;

    open spec fn deep_view(&self) -> ArgumentView {
        self.view()
    }
}

impl Argument {
    /// Builds an argument from its identifier and declared-type text.
    pub fn new(name: String, ty: String) -> (r: Argument)
        ensures
            r@.name == name@,
            r@.ty == ty@,
    {
        Argument { name, ty }
    }

    /// A copy of this argument with the same identifier and type text.
    pub fn duplicate(&self) -> (r: Argument)
        ensures
            r@ == self@,
    {
        Argument { name: self.name.clone(), ty: self.ty.clone() }
    }
}

/// One parameter of a structured declaration, as the declaration parser hands
/// it over: a plain `name: type` binding, a receiver, or some other pattern.
pub enum Param {
    /// A plain typed identifier binding.
    Typed(Argument),
    /// A `self` parameter in any of its forms.
    Receiver,
    /// Any other binding, such as a destructuring pattern.
    Pattern,
}

/// Mathematical model of a `Param`.
#[verifier::ext_equal]
pub enum ParamView {
    Typed(ArgumentView),
    Receiver,
    Pattern,
}

impl View for Param {
    type V = ParamView;

    open spec fn view(&self) -> ParamView {
        match self {
            Param::Typed(a) => ParamView::Typed(a@),
            Param::Receiver => ParamView::Receiver,
            Param::Pattern => ParamView::Pattern,
        }
    }
}

impl DeepView for Param {
    type V = ParamView;

    open spec fn deep_view(&self) -> ParamView {
        self.view()
    }
}

/// One structured function declaration, already taken apart by the
/// declaration parser: its name, its parameters in order, its declared return
/// type if it has one, and its complete original text.
pub struct Declaration {
    pub name: String,
    pub params: Vec<Param>,
    pub output: Option<String>,
    pub raw: String,
}

/// Mathematical model of a `Declaration`.
#[verifier::ext_equal]
pub struct DeclarationView {
    pub name: Seq<char>,
    pub params: Seq<ParamView>,
    pub output: Option<Seq<char>>,
    pub raw: Seq<char>,
}

impl View for Declaration {
    type V = DeclarationView;

    open spec fn view(&self) -> DeclarationView {
        DeclarationView {
            name: self.name@,
            params: self.params.deep_view(),
            output: match self.output {
                Option::Some(t) => Option::Some(t@),
                Option::None => Option::None,
            },
            raw: self.raw@,
        }
    }
}

/// Whether every parameter of a declaration is a plain typed identifier
/// binding; only such declarations yield a descriptor.
pub open spec fn all_params_typed(params: Seq<ParamView>) -> bool {
    forall|i: int| 0 <= i < params.len() ==> params[i] is Typed
}

/// The arguments of a declaration whose parameters are all typed, in order.
pub open spec fn arguments_of(params: Seq<ParamView>) -> Seq<ArgumentView> {
    params.map_values(|p: ParamView| p->Typed_0)
}

/// The return type recorded for a declaration: its declared one, or the unit
/// type when none is declared.
pub open spec fn return_type_of(output: Option<Seq<char>>) -> Seq<char> {
    match output {
        Option::Some(t) => t,
        Option::None => unit_type_text(),
    }
}

/// The text of the unit type, recorded when a declaration has no return type.
pub open spec fn unit_type_text() -> Seq<char> {
    seq!['(', ')']
}

/// Why a declaration yields no descriptor.
#[derive(PartialEq, Eq, Structural, Debug)]
pub enum ExtractError {
    /// The declaration text could not be parsed as a function.
    Malformed,
    /// A parameter is not a plain typed identifier binding.
    UnsupportedParameter,
}

/// One function registered for dispatch: its name, its (argument-name,
/// argument-type) pairs in declared order, its complete original declaration
/// text, and its return type, with the unit type standing in when none was
/// declared.
pub struct DistributableFunction {
    pub name: String,
    pub arguments: Vec<Argument>,
    pub raw: String,
    pub return_type: String,
}

/// Mathematical model of a `DistributableFunction`.
#[verifier::ext_equal]
pub struct DistributableFunctionView {
    pub name: Seq<char>,
    pub arguments: Seq<ArgumentView>,
    pub raw: Seq<char>,
    pub return_type: Seq<char>,
}

impl View for DistributableFunction {
    type V = DistributableFunctionView;

    open spec fn view(&self) -> DistributableFunctionView {
        DistributableFunctionView {
            name: self.name@,
            arguments: self.arguments.deep_view(),
            raw: self.raw@,
            return_type: self.return_type@,
        }
    }
}

impl DeepView for DistributableFunction {
    type V = DistributableFunctionView;

    open spec fn deep_view(&self) -> DistributableFunctionView {
        self.view()
    }
}

/// The descriptor that a structured declaration yields: same name and raw
/// text, the typed parameters as arguments, and the declared or unit return
/// type.
pub open spec fn descriptor_of(decl: DeclarationView) -> DistributableFunctionView {
    DistributableFunctionView {
        name: decl.name,
        arguments: arguments_of(decl.params),
        raw: decl.raw,
        return_type: return_type_of(decl.output),
    }
}

impl DistributableFunction {
    /// Extracts a descriptor from a structured declaration: records each
    /// typed parameter as an argument in declaration order, keeps the
    /// original text verbatim, and records the unit type when no return type
    /// is declared. A parameter that is not a plain typed identifier binding
    /// is rejected rather than dropped.
    pub fn from_declaration(decl: &Declaration) -> (r: Result<
        DistributableFunction,
        ExtractError,
    >)
        ensures
            r is Ok <==> all_params_typed(decl@.params),
            r is Ok ==> r->Ok_0@ == descriptor_of(decl@),
            r is Err ==> r->Err_0 == ExtractError::UnsupportedParameter,
    {
        let mut arguments: Vec<Argument> = Vec::new();
        let mut i: usize = 0;
        while i < decl.params.len()
            invariant
                i <= decl.params.len(),
                arguments@.len() == i,
                forall|j: int| 0 <= j < i ==> decl@.params[j] is Typed,
                forall|j: int| 0 <= j < i ==> arguments@[j]@ == decl@.params[j]->Typed_0,
            decreases decl.params.len() - i,
        {
            match &decl.params[i] {
                Param::Typed(a) => {
                    arguments.push(a.duplicate());
                },
                Param::Receiver => {
                    proof {
                        assert(decl@.params[i as int] == decl.params@[i as int].deep_view());
                        assert(!(decl@.params[i as int] is Typed));
                    }
                    return Result::Err(ExtractError::UnsupportedParameter);
                },
                Param::Pattern => {
                    proof {
                        assert(decl@.params[i as int] == decl.params@[i as int].deep_view());
                        assert(!(decl@.params[i as int] is Typed));
                    }
                    return Result::Err(ExtractError::UnsupportedParameter);
                },
            }
            i = i + 1;
        }
        proof {
            assert forall|j: int| 0 <= j < arguments@.len() implies arguments.deep_view()[j]
                == arguments_of(decl@.params)[j] by {
                assert(arguments.deep_view()[j] == arguments@[j]@);
                assert(arguments_of(decl@.params)[j] == decl@.params[j]->Typed_0);
            }
            assert(arguments.deep_view() =~~= arguments_of(decl@.params));
        }
        let return_type: String = match &decl.output {
            Option::Some(t) => t.clone(),
            Option::None => {
                proof {
                    reveal_strlit("()");
                }
                "()".to_owned()
            },
        };
        proof {
            assert(return_type@ =~~= return_type_of(decl@.output));
        }
        Result::Ok(
            DistributableFunction {
                name: decl.name.clone(),
                arguments,
                raw: decl.raw.clone(),
                return_type,
            },
        )
    }

    /// The function's declared name.
    pub fn get_name(&self) -> (r: String)
        ensures
            r@ == self@.name,
    {
        self.name.clone()
    }

    /// The protocol variant name derived from the function's name.
    pub fn get_pascal_name(&self) -> (r: String)
        ensures
            r@ == pascal_of(self@.name),
    {
        pascal_case(&self.name)
    }

    /// The function's return type text.
    pub fn get_return_type(&self) -> (r: String)
        ensures
            r@ == self@.return_type,
    {
        self.return_type.clone()
    }

    /// The function's complete original declaration text.
    pub fn get_raw(&self) -> (r: String)
        ensures
            r@ == self@.raw,
    {
        self.raw.clone()
    }

    /// The argument types as one list of texts, in declared order.
    pub fn get_arg_type_list(&self) -> (r: Vec<String>)
        ensures
            r.deep_view() == type_texts(self@.arguments),
    {
        let mut parts: Vec<String> = Vec::new();
        let mut i: usize = 0;
        while i < self.arguments.len()
            invariant
                i <= self.arguments.len(),
                parts@.len() == i,
                forall|j: int| 0 <= j < i ==> parts@[j]@ == self@.arguments[j].ty,
            decreases self.arguments.len() - i,
        {
            parts.push(self.arguments[i].ty.clone());
            i = i + 1;
        }
        proof {
            assert forall|j: int| 0 <= j < parts@.len() implies parts.deep_view()[j]
                == type_texts(self@.arguments)[j] by {
                assert(parts.deep_view()[j] == parts@[j]@);
            }
            assert(parts.deep_view() =~~= type_texts(self@.arguments));
        }
        parts
    }

    /// The argument types as a parenthesized, comma-separated tuple text, in
    /// declared order.
    pub fn get_arg_types(&self) -> (r: String)
        ensures
            r@ == tuple_text(type_texts(self@.arguments)),
    {
        let parts = self.get_arg_type_list();
        let joined = join_strings(&parts, ",");
        proof {
            reveal_strlit(",");
            assert(","@ =~~= seq![',']);
        }
        parenthesize(joined)
    }

    /// The argument names as a parenthesized, comma-separated tuple text, in
    /// declared order.
    pub fn get_arg_names(&self) -> (r: String)
        ensures
            r@ == tuple_text(name_texts(self@.arguments)),
    {
        let mut parts: Vec<String> = Vec::new();
        let mut i: usize = 0;
        while i < self.arguments.len()
            invariant
                i <= self.arguments.len(),
                parts@.len() == i,
                forall|j: int| 0 <= j < i ==> parts@[j]@ == self@.arguments[j].name,
            decreases self.arguments.len() - i,
        {
            parts.push(self.arguments[i].name.clone());
            i = i + 1;
        }
        proof {
            assert forall|j: int| 0 <= j < parts@.len() implies parts.deep_view()[j]
                == name_texts(self@.arguments)[j] by {
                assert(parts.deep_view()[j] == parts@[j]@);
            }
            assert(parts.deep_view() =~~= name_texts(self@.arguments));
        }
        let joined = join_strings(&parts, ",");
        proof {
            reveal_strlit(",");
            assert(","@ =~~= seq![',']);
        }
        parenthesize(joined)
    }

    /// The full parameter list text, `name:type` pairs parenthesized and
    /// comma-separated, in declared order.
    pub fn get_full_arg_sig(&self) -> (r: String)
        ensures
            r@ == tuple_text(sig_texts(self@.arguments)),
    {
        let mut parts: Vec<String> = Vec::new();
        let mut i: usize = 0;
        while i < self.arguments.len()
            invariant
                i <= self.arguments.len(),
                parts@.len() == i,
                forall|j: int| 0 <= j < i ==> parts@[j]@ == self@.arguments[j].name + seq![':'] + self@.arguments[j].ty,
            decreases self.arguments.len() - i,
        {
            let mut part = self.arguments[i].name.clone();
            part.append(":");
            part.append(self.arguments[i].ty.as_str());
            proof {
                reveal_strlit(":");
            }
            parts.push(part);
            i = i + 1;
        }
        proof {
            assert forall|j: int| 0 <= j < parts@.len() implies parts.deep_view()[j]
                == sig_texts(self@.arguments)[j] by {
                assert(parts.deep_view()[j] == parts@[j]@);
            }
            assert(parts.deep_view() =~~= sig_texts(self@.arguments));
        }
        let joined = join_strings(&parts, ",");
        proof {
            reveal_strlit(",");
            assert(","@ =~~= seq![',']);
        }
        parenthesize(joined)
    }

    /// A copy of this descriptor with the same view.
    pub fn duplicate(&self) -> (r: DistributableFunction)
        ensures
            r@ == self@,
    {
        let mut arguments: Vec<Argument> = Vec::new();
        let mut i: usize = 0;
        while i < self.arguments.len()
            invariant
                i <= self.arguments.len(),
                arguments@.len() == i,
                forall|j: int| 0 <= j < i ==> arguments@[j]@ == self@.arguments[j],
            decreases self.arguments.len() - i,
        {
            arguments.push(self.arguments[i].duplicate());
            i = i + 1;
        }
        proof {
            assert forall|j: int| 0 <= j < arguments@.len() implies arguments.deep_view()[j]
                == self@.arguments[j] by {
                assert(arguments.deep_view()[j] == arguments@[j]@);
            }
            assert(arguments.deep_view() =~~= self@.arguments);
        }
        DistributableFunction {
            name: self.name.clone(),
            arguments,
            raw: self.raw.clone(),
            return_type: self.return_type.clone(),
        }
    }
}

/// The type texts of the given arguments, in order.
pub open spec fn type_texts(args: Seq<ArgumentView>) -> Seq<Seq<char>> {
    args.map_values(|a: ArgumentView| a.ty)
}

/// The name texts of the given arguments, in order.
pub open spec fn name_texts(args: Seq<ArgumentView>) -> Seq<Seq<char>> {
    args.map_values(|a: ArgumentView| a.name)
}

/// The `name:type` texts of the given arguments, in order.
pub open spec fn sig_texts(args: Seq<ArgumentView>) -> Seq<Seq<char>> {
    args.map_values(|a: ArgumentView| a.name + seq![':'] + a.ty)
}

/// The given parts joined with commas and wrapped in parentheses.
pub open spec fn tuple_text(parts: Seq<Seq<char>>) -> Seq<char> {
    seq!['('] + join_with(parts, seq![',']) + seq![')']
}

/// Wraps the given text in parentheses.
pub fn parenthesize(inner: String) -> (r: String)
    ensures
        r@ == seq!['('] + inner@ + seq![')'],
{
    proof {
        reveal_strlit("(");
        reveal_strlit(")");
    }
    let mut r = "(".to_owned();
    r.append(inner.as_str());
    r.append(")");
    proof {
        assert(r@ =~~= seq!['('] + inner@ + seq![')']);
    }
    r
}

} // verus!
