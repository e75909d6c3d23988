//! The code generator: given the validated format model, synthesizes the
//! source text of a block that declares a generic record type (one type
//! parameter and one field per argument, plus a fixed-size array of the
//! literal segments), a display implementation that interleaves segments and
//! argument values, and a construction expression for one instance of the
//! record.

use crate::data::views;
use crate::data::PFormatArgs;
use crate::text::dec_digits;
use crate::text::lit_text;
use crate::text::push_dec;
use crate::text::push_lit;
use vstd::prelude::*;

verus! {

/// The generated field name for the argument at `i`: `arg<i>`.
pub open spec fn name_ident_text(i: nat) -> Seq<char> {
    "arg"@ + dec_digits(i)
}

/// The generated type-parameter name for the argument at `i`: `T<i>`.
pub open spec fn type_ident_text(i: nat) -> Seq<char> {
    "T"@ + dec_digits(i)
}

/// The generic-argument list `T0, T1, ...` for `n` arguments.
pub open spec fn generic_args_text(n: nat) -> Seq<char>
    decreases n,
{
    if n == 0 {
        Seq::<char>::empty()
    } else {
        generic_args_text((n - 1) as nat) + type_ident_text((n - 1) as nat) + ", "@
    }
}

/// The constrained generic-parameter list `T0: Display, T1: Display, ...`
/// for `n` arguments.
pub open spec fn generic_params_text(n: nat) -> Seq<char>
    decreases n,
{
    if n == 0 {
        Seq::<char>::empty()
    } else {
        generic_params_text((n - 1) as nat) + type_ident_text((n - 1) as nat) + ": Display, "@
    }
}

/// The field declarations `arg0: T0, arg1: T1, ...` for `n` arguments.
pub open spec fn properties_text(n: nat) -> Seq<char>
    decreases n,
{
    if n == 0 {
        Seq::<char>::empty()
    } else {
        properties_text((n - 1) as nat) + name_ident_text((n - 1) as nat) + ": "@
            + type_ident_text((n - 1) as nat) + ", "@
    }
}

/// The elements of the literal-segments array: each segment as a generated
/// string literal, comma separated.
pub open spec fn pieces_list_text(ps: Seq<Seq<char>>) -> Seq<char>
    decreases ps.len(),
{
    if ps.len() == 0 {
        Seq::<char>::empty()
    } else {
        pieces_list_text(ps.drop_last()) + lit_text(ps.last()) + ", "@
    }
}

/// The declaration of the generated record type: one field per argument and
/// the fixed-size array of literal segments, sized one more than the number
/// of arguments.
pub open spec fn struct_decl_text(name: Seq<char>, n: nat) -> Seq<char> {
    "struct "@ + name + "<"@ + generic_params_text(n) + "> { "@ + properties_text(n)
        + "pieces: [&'static str; "@ + dec_digits(n + 1) + "], }"@
}

/// The body steps of the render function: for each argument in position
/// order, write its displayed form, then the literal segment that follows
/// it.
pub open spec fn display_steps_text(n: nat) -> Seq<char>
    decreases n,
{
    if n == 0 {
        Seq::<char>::empty()
    } else {
        display_steps_text((n - 1) as nat) + "f.write_fmt(format_args!(\"{}\", &self."@
            + name_ident_text((n - 1) as nat) + "))?; f.write_str(self.pieces["@ + dec_digits(n)
            + "])?; "@
    }
}

/// The generated render function: write the first literal segment, then each
/// argument followed by the next segment, then signal success.
pub open spec fn display_fn_text(n: nat) -> Seq<char> {
    "fn fmt(&self, f: &mut Formatter<'_>) -> Result { f.write_str(self.pieces[0])?; "@
        + display_steps_text(n) + "Ok(()) }"@
}

/// The generated display implementation for the record type.
pub open spec fn display_impl_text(name: Seq<char>, n: nat) -> Seq<char> {
    "impl<"@ + generic_params_text(n) + "> Display for "@ + name + "<"@ + generic_args_text(n)
        + "> { "@ + display_fn_text(n) + " }"@
}

/// The field initializers `arg0: <expr0>, arg1: <expr1>, ...` binding each
/// argument expression to its field.
pub open spec fn init_fields_text(es: Seq<Seq<char>>) -> Seq<char>
    decreases es.len(),
{
    if es.len() == 0 {
        Seq::<char>::empty()
    } else {
        init_fields_text(es.drop_last()) + name_ident_text((es.len() - 1) as nat) + ": "@
            + es.last() + ", "@
    }
}

/// The construction expression: one instance of the record with the actual
/// argument expressions and the embedded literal-segments array.
pub open spec fn initializer_text(name: Seq<char>, ps: Seq<Seq<char>>, es: Seq<Seq<char>>) -> Seq<
    char,
> {
    name + " { "@ + init_fields_text(es) + "pieces: ["@ + pieces_list_text(ps) + "], }"@
}

/// The whole expansion: a self-contained block holding the record
/// declaration, its display implementation, and the construction expression
/// as its value.
pub open spec fn expanded_text(ps: Seq<Seq<char>>, es: Seq<Seq<char>>) -> Seq<char> {
    "{ use std::fmt::Display; use std::fmt::Formatter; use std::fmt::Result; use std::format_args; "@
        + struct_decl_text("CompiledFormat"@, es.len()) + " "@ + display_impl_text(
        "CompiledFormat"@,
        es.len(),
    ) + " "@ + initializer_text("CompiledFormat"@, ps, es) + " }"@
}

/// One argument position, from which the generated field and type-parameter
/// names are derived.
pub struct Argument {
    position: usize,
}

impl Argument {
    /// The zero-based position of the argument.
    pub closed spec fn pos(&self) -> nat {
        self.position as nat
    }

    /// The argument at the given zero-based position.
    pub fn new(position: usize) -> (r: Argument)
        ensures
            r.pos() == position as nat,
    {
        Argument { position }
    }

    /// The generated field name for this argument.
    pub fn name_ident(&self) -> (r: String)
        ensures
            r@ == name_ident_text(self.pos()),
    {
        let mut s = String::from_str("arg");
        push_dec(&mut s, self.position);
        s
    }

    /// The generated type-parameter name for this argument.
    pub fn type_ident(&self) -> (r: String)
        ensures
            r@ == type_ident_text(self.pos()),
    {
        let mut s = String::from_str("T");
        push_dec(&mut s, self.position);
        s
    }
}

/// The argument expressions of one invocation, by reference, with the
/// position-derived naming of their generated fields and type parameters.
#[derive(Clone, Copy)]
pub struct Arguments<'a> {
    args: &'a Vec<String>,
}

impl<'a> Arguments<'a> {
    /// The texts of the argument expressions.
    pub closed spec fn texts(&self) -> Seq<Seq<char>> {
        views(self.args@)
    }

    /// Wraps a list of argument expression texts.
    pub fn new(args: &'a Vec<String>) -> (r: Arguments<'a>)
        ensures
            r.texts() == views(args@),
    {
        Arguments { args }
    }

    /// The number of arguments.
    pub fn len(&self) -> (n: usize)
        ensures
            n == self.texts().len(),
    {
        self.args.len()
    }

    /// The generated field names, one per argument, in position order.
    pub fn name_idents(&self) -> (r: Vec<String>)
        ensures
            r@.len() == self.texts().len(),
            forall|i: int| 0 <= i < r@.len() ==> r@[i]@ == name_ident_text(i as nat),
    {
        let n = self.args.len();
        let mut r: Vec<String> = Vec::new();
        let mut i: usize = 0;
        while i < n
            invariant
                i <= n,
                r@.len() == i,
                forall|j: int| 0 <= j < i ==> r@[j]@ == name_ident_text(j as nat),
            decreases n - i,
        {
            r.push(Argument::new(i).name_ident());
            i = i + 1;
        }
        r
    }

    /// The generated type-parameter names, one per argument, in position
    /// order.
    pub fn type_idents(&self) -> (r: Vec<String>)
        ensures
            r@.len() == self.texts().len(),
            forall|i: int| 0 <= i < r@.len() ==> r@[i]@ == type_ident_text(i as nat),
    {
        let n = self.args.len();
        let mut r: Vec<String> = Vec::new();
        let mut i: usize = 0;
        while i < n
            invariant
                i <= n,
                r@.len() == i,
                forall|j: int| 0 <= j < i ==> r@[j]@ == type_ident_text(j as nat),
            decreases n - i,
        {
            r.push(Argument::new(i).type_ident());
            i = i + 1;
        }
        r
    }

    /// The argument expression texts themselves.
    pub fn as_slice(&self) -> (r: &'a Vec<String>)
        ensures
            views(r@) == self.texts(),
    {
        self.args
    }
}

fn push_generic_args(out: &mut String, n: usize)
    ensures
        final(out)@ == old(out)@ + generic_args_text(n as nat),
{
    let mut i: usize = 0;
    while i < n
        invariant
            i <= n,
            out@ == old(out)@ + generic_args_text(i as nat),
        decreases n - i,
    {
        let t = Argument::new(i).type_ident();
        out.append(t.as_str());
        out.append(", ");
        i = i + 1;
    }
}

fn push_generic_params(out: &mut String, n: usize)
    ensures
        final(out)@ == old(out)@ + generic_params_text(n as nat),
{
    let mut i: usize = 0;
    while i < n
        invariant
            i <= n,
            out@ == old(out)@ + generic_params_text(i as nat),
        decreases n - i,
    {
        let t = Argument::new(i).type_ident();
        out.append(t.as_str());
        out.append(": Display, ");
        i = i + 1;
    }
}

/// The generic arguments of the generated record type.
pub struct StructGenericArguments<'a> {
    arguments: Arguments<'a>,
}

impl<'a> StructGenericArguments<'a> {
    pub closed spec fn count(&self) -> nat {
        self.arguments.texts().len()
    }

    pub fn new(arguments: Arguments<'a>) -> (r: StructGenericArguments<'a>)
        ensures
            r.count() == arguments.texts().len(),
    {
        StructGenericArguments { arguments }
    }

    /// The generic-parameter names themselves, in position order.
    pub fn generics(&self) -> (r: Vec<String>)
        ensures
            r@.len() == self.count(),
            forall|i: int| 0 <= i < r@.len() ==> r@[i]@ == type_ident_text(i as nat),
    {
        self.arguments.type_idents()
    }

    /// The unconstrained generic-argument list `T0, T1, ...`.
    pub fn generate(&self) -> (r: String)
        ensures
            r@ == generic_args_text(self.count()),
    {
        let mut s = String::new();
        push_generic_args(&mut s, self.arguments.len());
        s
    }

    /// The constrained generic-parameter list `T0: Display, T1: Display,
    /// ...`.
    pub fn generate_params(&self) -> (r: String)
        ensures
            r@ == generic_params_text(self.count()),
    {
        let mut s = String::new();
        push_generic_params(&mut s, self.arguments.len());
        s
    }
}

/// The field declarations of the generated record type, one per argument.
pub struct StructProperties<'a> {
    arguments: Arguments<'a>,
}

impl<'a> StructProperties<'a> {
    pub closed spec fn count(&self) -> nat {
        self.arguments.texts().len()
    }

    pub fn new(arguments: Arguments<'a>) -> (r: StructProperties<'a>)
        ensures
            r.count() == arguments.texts().len(),
    {
        StructProperties { arguments }
    }

    /// The field list `arg0: T0, arg1: T1, ...`.
    pub fn generate(&self) -> (r: String)
        ensures
            r@ == properties_text(self.count()),
    {
        let n = self.arguments.len();
        let mut s = String::new();
        let mut i: usize = 0;
        while i < n
            invariant
                i <= n,
                s@ == properties_text(i as nat),
            decreases n - i,
        {
            let a = Argument::new(i);
            let name = a.name_ident();
            let ty = a.type_ident();
            s.append(name.as_str());
            s.append(": ");
            s.append(ty.as_str());
            s.append(", ");
            i = i + 1;
        }
        s
    }
}

/// The declaration of the generated record type.
pub struct StructDeclaration<'a> {
    name: &'a str,
    arguments: Arguments<'a>,
}

impl<'a> StructDeclaration<'a> {
    pub closed spec fn spec_name(&self) -> Seq<char> {
        self.name@
    }

    pub closed spec fn count(&self) -> nat {
        self.arguments.texts().len()
    }

    pub fn new(name: &'a str, arguments: Arguments<'a>) -> (r: StructDeclaration<'a>)
        ensures
            r.spec_name() == name@,
            r.count() == arguments.texts().len(),
    {
        StructDeclaration { name, arguments }
    }

    /// The record declaration: one generic parameter and one field per
    /// argument, plus the literal-segments array field, sized one more than
    /// the number of arguments.
    pub fn generate(&self) -> (r: String)
        requires
            self.count() < usize::MAX,
        ensures
            r@ == struct_decl_text(self.spec_name(), self.count()),
    {
        let n = self.arguments.len();
        let mut s = String::from_str("struct ");
        s.append(self.name);
        s.append("<");
        push_generic_params(&mut s, n);
        s.append("> { ");
        let props = StructProperties::new(self.arguments).generate();
        s.append(props.as_str());
        s.append("pieces: [&'static str; ");
        push_dec(&mut s, n + 1);
        s.append("], }");
        s
    }
}

fn push_display_steps(out: &mut String, n: usize)
    requires
        n < usize::MAX,
    ensures
        final(out)@ == old(out)@ + display_steps_text(n as nat),
{
    let mut i: usize = 0;
    while i < n
        invariant
            i <= n,
            n < usize::MAX,
            out@ == old(out)@ + display_steps_text(i as nat),
        decreases n - i,
    {
        let name = Argument::new(i).name_ident();
        out.append("f.write_fmt(format_args!(\"{}\", &self.");
        out.append(name.as_str());
        out.append("))?; f.write_str(self.pieces[");
        push_dec(out, i + 1);
        out.append("])?; ");
        i = i + 1;
    }
}

/// The render function of the generated record type.
pub struct DisplayFunc<'a> {
    pieces: &'a Vec<String>,
    arguments: Arguments<'a>,
}

impl<'a> DisplayFunc<'a> {
    pub closed spec fn count(&self) -> nat {
        self.arguments.texts().len()
    }

    pub closed spec fn spec_pieces(&self) -> Seq<Seq<char>> {
        views(self.pieces@)
    }

    pub fn new(pieces: &'a Vec<String>, arguments: Arguments<'a>) -> (r: DisplayFunc<'a>)
        ensures
            r.count() == arguments.texts().len(),
            r.spec_pieces() == views(pieces@),
    {
        DisplayFunc { pieces, arguments }
    }

    /// The render function: write the first literal segment, then each
    /// argument's displayed form followed by the next segment, then signal
    /// success.
    pub fn generate(&self) -> (r: String)
        requires
            self.count() < usize::MAX,
        ensures
            r@ == display_fn_text(self.count()),
    {
        let mut s = String::from_str(
            "fn fmt(&self, f: &mut Formatter<'_>) -> Result { f.write_str(self.pieces[0])?; ",
        );
        push_display_steps(&mut s, self.arguments.len());
        s.append("Ok(()) }");
        s
    }
}

/// The display implementation of the generated record type.
pub struct DisplayImplDeclaration<'a> {
    struct_name: &'a str,
    pieces: &'a Vec<String>,
    arguments: Arguments<'a>,
}

impl<'a> DisplayImplDeclaration<'a> {
    pub closed spec fn spec_name(&self) -> Seq<char> {
        self.struct_name@
    }

    pub closed spec fn count(&self) -> nat {
        self.arguments.texts().len()
    }

    pub fn new(struct_name: &'a str, pieces: &'a Vec<String>, arguments: Arguments<'a>) -> (r:
        DisplayImplDeclaration<'a>)
        ensures
            r.spec_name() == struct_name@,
            r.count() == arguments.texts().len(),
    {
        DisplayImplDeclaration { struct_name, pieces, arguments }
    }

    /// The display implementation wrapping the render function.
    pub fn generate(&self) -> (r: String)
        requires
            self.count() < usize::MAX,
        ensures
            r@ == display_impl_text(self.spec_name(), self.count()),
    {
        let mut s = String::from_str("impl<");
        push_generic_params(&mut s, self.arguments.len());
        s.append("> Display for ");
        s.append(self.struct_name);
        s.append("<");
        push_generic_args(&mut s, self.arguments.len());
        s.append("> { ");
        let f = DisplayFunc::new(self.pieces, self.arguments).generate();
        s.append(f.as_str());
        s.append(" }");
        s
    }
}

fn push_init_fields(out: &mut String, args: &Vec<String>)
    ensures
        final(out)@ == old(out)@ + init_fields_text(views(args@)),
{
    let n = args.len();
    let mut i: usize = 0;
    while i < n
        invariant
            i <= n,
            n == args@.len(),
            out@ == old(out)@ + init_fields_text(views(args@).take(i as int)),
        decreases n - i,
    {
        let name = Argument::new(i).name_ident();
        out.append(name.as_str());
        out.append(": ");
        out.append(args[i].as_str());
        out.append(", ");
        proof {
            let vs = views(args@);
            assert(vs.take(i + 1 as int).drop_last() =~= vs.take(i as int));
            assert(vs.take(i + 1 as int).last() == args@[i as int]@);
        }
        i = i + 1;
    }
    proof {
        assert(views(args@).take(n as int) =~= views(args@));
    }
}

fn push_pieces_list(out: &mut String, pieces: &Vec<String>)
    ensures
        final(out)@ == old(out)@ + pieces_list_text(views(pieces@)),
{
    let n = pieces.len();
    let mut i: usize = 0;
    while i < n
        invariant
            i <= n,
            n == pieces@.len(),
            out@ == old(out)@ + pieces_list_text(views(pieces@).take(i as int)),
        decreases n - i,
    {
        push_lit(out, pieces[i].as_str());
        out.append(", ");
        proof {
            let vs = views(pieces@);
            assert(vs.take(i + 1 as int).drop_last() =~= vs.take(i as int));
            assert(vs.take(i + 1 as int).last() == pieces@[i as int]@);
        }
        i = i + 1;
    }
    proof {
        assert(views(pieces@).take(n as int) =~= views(pieces@));
    }
}

/// The construction expression for one instance of the generated record.
pub struct StructInitializer<'a> {
    name: &'a str,
    pieces: &'a Vec<String>,
    arguments: Arguments<'a>,
}

impl<'a> StructInitializer<'a> {
    pub closed spec fn spec_name(&self) -> Seq<char> {
        self.name@
    }

    pub closed spec fn spec_pieces(&self) -> Seq<Seq<char>> {
        views(self.pieces@)
    }

    pub closed spec fn spec_args(&self) -> Seq<Seq<char>> {
        self.arguments.texts()
    }

    pub fn new(name: &'a str, pieces: &'a Vec<String>, arguments: Arguments<'a>) -> (r:
        StructInitializer<'a>)
        ensures
            r.spec_name() == name@,
            r.spec_pieces() == views(pieces@),
            r.spec_args() == arguments.texts(),
    {
        StructInitializer { name, pieces, arguments }
    }

    /// The construction expression: the argument expressions bound to their
    /// fields and the literal-segments array embedded as static data.
    pub fn generate(&self) -> (r: String)
        ensures
            r@ == initializer_text(self.spec_name(), self.spec_pieces(), self.spec_args()),
    {
        let mut s = String::from_str(self.name);
        s.append(" { ");
        push_init_fields(&mut s, self.arguments.as_slice());
        s.append("pieces: [");
        push_pieces_list(&mut s, self.pieces);
        s.append("], }");
        s
    }
}

/// The validated pieces of one invocation, under the fixed name of the
/// generated record type.
pub struct MacroInput<'a> {
    struct_name: &'a str,
    pieces: &'a Vec<String>,
    arguments: Arguments<'a>,
}

impl<'a> MacroInput<'a> {
    pub closed spec fn spec_name(&self) -> Seq<char> {
        self.struct_name@
    }

    pub closed spec fn spec_pieces(&self) -> Seq<Seq<char>> {
        views(self.pieces@)
    }

    pub closed spec fn spec_args(&self) -> Seq<Seq<char>> {
        self.arguments.texts()
    }

    pub fn new(struct_name: &'a str, pieces: &'a Vec<String>, arguments: Arguments<'a>) -> (r:
        MacroInput<'a>)
        ensures
            r.spec_name() == struct_name@,
            r.spec_pieces() == views(pieces@),
            r.spec_args() == arguments.texts(),
    {
        MacroInput { struct_name, pieces, arguments }
    }

    /// The input for one validated invocation: the record type is named
    /// `CompiledFormat`.
    pub fn from(value: &'a PFormatArgs) -> (r: MacroInput<'a>)
        ensures
            r.spec_name() == "CompiledFormat"@,
            r.spec_pieces() == views(value.pieces@),
            r.spec_args() == views(value.args@),
    {
        MacroInput::new("CompiledFormat", &value.pieces, Arguments::new(&value.args))
    }
}

/// One whole expansion, assembled from its three generated parts.
pub struct ExpandedMacro<'a> {
    input: MacroInput<'a>,
}

impl<'a> ExpandedMacro<'a> {
    pub closed spec fn spec_name(&self) -> Seq<char> {
        self.input.spec_name()
    }

    pub closed spec fn spec_pieces(&self) -> Seq<Seq<char>> {
        self.input.spec_pieces()
    }

    pub closed spec fn spec_args(&self) -> Seq<Seq<char>> {
        self.input.spec_args()
    }

    /// Valid inputs hold one literal segment more than there are arguments.
    pub open spec fn wf(&self) -> bool {
        self.spec_pieces().len() == self.spec_args().len() + 1
    }

    pub fn new(input: &'a PFormatArgs) -> (r: ExpandedMacro<'a>)
        ensures
            r.spec_pieces() == views(input.pieces@),
            r.spec_args() == views(input.args@),
            r.spec_name() == "CompiledFormat"@,
    {
        ExpandedMacro { input: MacroInput::from(input) }
    }

    /// The declaration of the generated record type.
    pub fn struct_declaration(&self) -> (r: String)
        requires
            self.wf(),
        ensures
            r@ == struct_decl_text(self.spec_name(), self.spec_args().len()),
    {
        let _total: usize = self.input.pieces.len();
        proof {
            assert(self.spec_args().len() < usize::MAX);
        }
        StructDeclaration::new(self.input.struct_name, self.input.arguments).generate()
    }

    /// The display implementation of the generated record type.
    pub fn display_impl_declaration(&self) -> (r: String)
        requires
            self.wf(),
        ensures
            r@ == display_impl_text(self.spec_name(), self.spec_args().len()),
    {
        let _total: usize = self.input.pieces.len();
        proof {
            assert(self.spec_args().len() < usize::MAX);
        }
        DisplayImplDeclaration::new(
            self.input.struct_name,
            self.input.pieces,
            self.input.arguments,
        ).generate()
    }

    /// The construction expression for one instance of the record.
    pub fn struct_initializer(&self) -> (r: String)
        ensures
            r@ == initializer_text(self.spec_name(), self.spec_pieces(), self.spec_args()),
    {
        StructInitializer::new(
            self.input.struct_name,
            self.input.pieces,
            self.input.arguments,
        ).generate()
    }

    /// The whole expansion: the self-contained block holding the three
    /// parts, whose value is the constructed record instance.
    pub fn generate(&self) -> (r: String)
        requires
            self.wf(),
            self.spec_name() == "CompiledFormat"@,
        ensures
            r@ == expanded_text(self.spec_pieces(), self.spec_args()),
    {
        let mut s = String::from_str(
            "{ use std::fmt::Display; use std::fmt::Formatter; use std::fmt::Result; use std::format_args; ",
        );
        let decl = self.struct_declaration();
        s.append(decl.as_str());
        s.append(" ");
        let di = self.display_impl_declaration();
        s.append(di.as_str());
        s.append(" ");
        let init = self.struct_initializer();
        s.append(init.as_str());
        s.append(" }");
        s
    }
}

/// Expands one validated format model into the source text of its generated
/// block.
pub fn expand(input: &PFormatArgs) -> (code: String)
    requires
        input.wf(),
    ensures
        code@ == expanded_text(views(input.pieces@), views(input.args@)),
{
    ExpandedMacro::new(input).generate()
}

} // verus!
