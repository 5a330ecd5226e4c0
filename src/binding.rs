use vstd::prelude::*;

verus! {

#[verifier::external_type_specification]
#[verifier::external_body]
pub struct ExTokenStream(proc_macro2::TokenStream);

#[verifier::external_type_specification]
#[verifier::external_body]
pub struct ExExpr(syn::Expr);

#[verifier::external_type_specification]
#[verifier::external_body]
pub struct ExItemFn(syn::ItemFn);

#[verifier::external_type_specification]
#[verifier::external_body]
pub struct ExSynError(syn::Error);

/// Why a function could not be instrumented. Both are reported when the
/// binding is applied, before the function can be called.
pub enum BindError {
    /// The argument list holds no metric expression.
    MissingMetric,
    /// The function or an argument is not valid syntax.
    Malformed(syn::Error),
}

/// What the attachment arguments name: the histogram family to observe
/// into, and the expressions of the label values, in the order of the
/// family's label schema.
pub struct Binding {
    pub metric: syn::Expr,
    pub tags: Vec<syn::Expr>,
}

/// A function definition together with the binding that instruments it.
pub struct Instrumented {
    pub item: syn::ItemFn,
    pub binding: Binding,
}

/// What syn reads from `tokens` as a comma-separated list of expressions.
pub uninterp spec fn expression_list_of(tokens: proc_macro2::TokenStream) -> Result<
    Vec<syn::Expr>,
    syn::Error,
>;

/// What syn reads from `tokens` as a function definition.
pub uninterp spec fn function_of(tokens: proc_macro2::TokenStream) -> Result<
    syn::ItemFn,
    syn::Error,
>;

/// Relies on `syn::punctuated::Punctuated::parse_terminated`, run over the
/// whole of `tokens` by `syn::parse::Parser::parse2`: the expressions of a
/// comma-separated list, in order, or the syntax error. The result depends
/// on the tokens alone.
#[verifier::external_body]
fn parse_expression_list(tokens: proc_macro2::TokenStream) -> (r: Result<
    Vec<syn::Expr>,
    syn::Error,
>)
    ensures
        r == expression_list_of(tokens),
{
    let parser = syn::punctuated::Punctuated::<syn::Expr, syn::token::Comma>::parse_terminated;
    syn::parse::Parser::parse2(parser, tokens).map(|list| list.into_iter().collect())
}

/// Relies on `syn::parse2`: the function definition that `tokens` spell, or
/// the syntax error. The result depends on the tokens alone.
#[verifier::external_body]
fn parse_function(tokens: proc_macro2::TokenStream) -> (r: Result<syn::ItemFn, syn::Error>)
    ensures
        r == function_of(tokens),
{
    syn::parse2::<syn::ItemFn>(tokens)
}

/// `r` is the split of `arguments`: no binding where the list is empty, else
/// the first expression as the metric and the others, in order, as the tags.
pub open spec fn split_of(arguments: Seq<syn::Expr>, r: Result<Binding, BindError>) -> bool {
    if arguments.len() == 0 {
        r matches Err(BindError::MissingMetric)
    } else {
        r matches Ok(b) && b.metric == arguments[0] && b.tags@ == arguments.subrange(
            1,
            arguments.len() as int,
        )
    }
}

/// `r` is what applying a binding gives for the parse `item` of the
/// function and the parse `arguments` of the attachment arguments: a
/// malformed definition is reported first, then a malformed argument list,
/// then a missing metric.
pub open spec fn bound(
    item: Result<syn::ItemFn, syn::Error>,
    arguments: Result<Vec<syn::Expr>, syn::Error>,
    r: Result<Instrumented, BindError>,
) -> bool {
    match item {
        Err(e) => r == Err::<Instrumented, BindError>(BindError::Malformed(e)),
        Ok(f) => match arguments {
            Err(e) => r == Err::<Instrumented, BindError>(BindError::Malformed(e)),
            Ok(a) => if a@.len() == 0 {
                r == Err::<Instrumented, BindError>(BindError::MissingMetric)
            } else {
                r matches Ok(i) && i.item == f && i.binding.metric == a@[0] && i.binding.tags@
                    == a@.subrange(1, a@.len() as int)
            },
        },
    }
}

/// Splits a parsed argument list: the first expression is the metric, the
/// rest are the label values in order. An empty list has no metric.
pub fn split_arguments(arguments: Vec<syn::Expr>) -> (r: Result<Binding, BindError>)
    ensures
        split_of(arguments@, r),
{
    if arguments.len() == 0 {
        return Err(BindError::MissingMetric);
    }
    let mut tags = arguments;
    let metric = tags.remove(0);
    Ok(Binding { metric, tags })
}

/// Reads the attachment arguments: a comma-separated list of expressions,
/// the metric first. A list that does not parse is malformed; one that parses
/// to no expression lacks the metric.
pub fn parse_arguments(tokens: proc_macro2::TokenStream) -> (r: Result<Binding, BindError>)
    ensures
        match expression_list_of(tokens) {
            Err(e) => r == Err::<Binding, BindError>(BindError::Malformed(e)),
            Ok(a) => split_of(a@, r),
        },
{
    match parse_expression_list(tokens) {
        Ok(arguments) => split_arguments(arguments),
        Err(e) => Err(BindError::Malformed(e)),
    }
}

/// Combines the parse of a function definition and the parse of its
/// attachment arguments, as `bound` says.
pub fn bind_parsed(
    item: Result<syn::ItemFn, syn::Error>,
    arguments: Result<Vec<syn::Expr>, syn::Error>,
) -> (r: Result<Instrumented, BindError>)
    ensures
        bound(item, arguments, r),
{
    match item {
        Err(e) => Err(BindError::Malformed(e)),
        Ok(item) => match arguments {
            Err(e) => Err(BindError::Malformed(e)),
            Ok(a) => match split_arguments(a) {
                Ok(binding) => Ok(Instrumented { item, binding }),
                Err(e) => Err(e),
            },
        },
    }
}

/// Applies a binding to a function definition: parses the definition and
/// its attachment arguments, and rejects the pair as `bound` says.
pub fn bind(arguments: proc_macro2::TokenStream, item: proc_macro2::TokenStream) -> (r: Result<
    Instrumented,
    BindError,
>)
    ensures
        bound(function_of(item), expression_list_of(arguments), r),
{
    let item = parse_function(item);
    let arguments = parse_expression_list(arguments);
    bind_parsed(item, arguments)
}

} // verus!
