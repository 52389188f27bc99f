//! What holds of the compiler as a whole, stated and proved over its models.

use crate::compiler::attributes::export_annotation;
use crate::compiler::attributes::AnnotationView;
use crate::compiler::fields_code;
use crate::compiler::hints::into_items;
use crate::compiler::hints::is_or_greater;
use crate::compiler::hints::is_or_lesser;
use crate::compiler::hints::is_step;
use crate::compiler::hints::modifiers;
use crate::compiler::hints::modifiers_upto;
use crate::compiler::hints::range_hint;
use crate::compiler::hints::with_modifier;
use crate::compiler::impl_block::property_init;
use crate::compiler::impl_block::property_inits_code;
use crate::compiler::impl_block::property_registration;
use crate::compiler::impl_block::property_registrations;
use crate::compiler::properties::annotated;
use crate::compiler::properties::bounds_fault;
use crate::compiler::properties::numeric;
use crate::compiler::properties::well_bounded;
use crate::compiler::properties::ExportTypeView;
use crate::error::FoundView;
use crate::parser::gdscript_var::hint_for_word;
use crate::tokens::TokenView;
use crate::compiler::properties::new_property;
use crate::compiler::properties::property_of_var;
use crate::compiler::properties::PropertyView;
use crate::error::Error;
use crate::error::ErrorView;
use crate::error::GenerationError;
use crate::expanded_as;
use crate::parser::gdscript_class::signals_of;
use crate::parser::gdscript_class::vars_of;
use crate::parser::gdscript_items::GdScriptItemView;
use crate::parser::gdscript_var::GdScriptVarView;
use crate::tokens::LitView;
use vstd::prelude::*;

verus! {

/// Compilation is a function of its input: two results that answer the same input are
/// the same code, letter for letter, or the same error.
pub proof fn lemma_expansion_is_determined(
    first: Result<String, Error>,
    second: Result<String, Error>,
    model: Result<Seq<char>, ErrorView>,
)
    requires
        expanded_as(first, model),
        expanded_as(second, model),
    ensures
        match (first, second) {
            (Ok(a), Ok(b)) => a@ == b@,
            (Err(a), Err(b)) => a@ == b@,
            _ => false,
        },
{
}

/// The place among the items of the property that stands at place `i` among the
/// properties.
pub open spec fn var_source(items: Seq<GdScriptItemView>, i: int) -> int
    decreases items.len(),
{
    if items.len() == 0 {
        -1
    } else if items.last() is Variable && i == vars_of(items.drop_last()).len() {
        items.len() - 1
    } else {
        var_source(items.drop_last(), i)
    }
}

/// The place among the items of the signal that stands at place `i` among the signals.
pub open spec fn signal_source(items: Seq<GdScriptItemView>, i: int) -> int
    decreases items.len(),
{
    if items.len() == 0 {
        -1
    } else if items.last() is Signal && i == signals_of(items.drop_last()).len() {
        items.len() - 1
    } else {
        signal_source(items.drop_last(), i)
    }
}

/// Every property of the view is an item of the class: the property at place `i` is the
/// item at the place that `var_source` gives.
pub proof fn lemma_var_comes_from_item(items: Seq<GdScriptItemView>, i: int)
    requires
        0 <= i < vars_of(items).len(),
    ensures
        0 <= var_source(items, i) < items.len(),
        items[var_source(items, i)] == GdScriptItemView::Variable(vars_of(items)[i]),
    decreases items.len(),
{
    if items.len() > 0 {
        if !(items.last() is Variable && i == vars_of(items.drop_last()).len()) {
            lemma_var_comes_from_item(items.drop_last(), i);
        }
    }
}

/// The view of the properties keeps the order of declaration: of two properties, the one
/// that stands first in the view stands first among the items.
pub proof fn lemma_vars_keep_order(items: Seq<GdScriptItemView>, i: int, j: int)
    requires
        0 <= i < j < vars_of(items).len(),
    ensures
        var_source(items, i) < var_source(items, j),
    decreases items.len(),
{
    if items.len() > 0 {
        if items.last() is Variable && j == vars_of(items.drop_last()).len() {
            lemma_var_comes_from_item(items.drop_last(), i);
        } else {
            lemma_vars_keep_order(items.drop_last(), i, j);
        }
    }
}

/// Every signal of the view is an item of the class: the signal at place `i` is the item
/// at the place that `signal_source` gives.
pub proof fn lemma_signal_comes_from_item(items: Seq<GdScriptItemView>, i: int)
    requires
        0 <= i < signals_of(items).len(),
    ensures
        0 <= signal_source(items, i) < items.len(),
        items[signal_source(items, i)] == GdScriptItemView::Signal(signals_of(items)[i]),
    decreases items.len(),
{
    if items.len() > 0 {
        if !(items.last() is Signal && i == signals_of(items.drop_last()).len()) {
            lemma_signal_comes_from_item(items.drop_last(), i);
        }
    }
}

/// The view of the signals keeps the order of declaration.
pub proof fn lemma_signals_keep_order(items: Seq<GdScriptItemView>, i: int, j: int)
    requires
        0 <= i < j < signals_of(items).len(),
    ensures
        signal_source(items, i) < signal_source(items, j),
    decreases items.len(),
{
    if items.len() > 0 {
        if items.last() is Signal && j == signals_of(items.drop_last()).len() {
            lemma_signal_comes_from_item(items.drop_last(), i);
        } else {
            lemma_signals_keep_order(items.drop_last(), i, j);
        }
    }
}

/// Every item of the class is in one of the two views: the views leave nothing out, and
/// together they are as many as the items.
pub proof fn lemma_views_cover_items(items: Seq<GdScriptItemView>)
    ensures
        vars_of(items).len() + signals_of(items).len() == items.len(),
    decreases items.len(),
{
    if items.len() > 0 {
        lemma_views_cover_items(items.drop_last());
    }
}

/// The registration function declares the properties in their order: the statements of a
/// list of properties are the statements of its front part, then those of the rest.
pub proof fn lemma_registrations_in_order(front: Seq<PropertyView>, back: Seq<PropertyView>)
    requires
        property_registrations(front + back, (front + back).len() as int) is Ok,
    ensures
        property_registrations(front, front.len() as int) is Ok,
        property_registrations(back, back.len() as int) is Ok,
        property_registrations(front + back, (front + back).len() as int)->Ok_0
            == property_registrations(front, front.len() as int)->Ok_0 + property_registrations(
            back,
            back.len() as int,
        )->Ok_0,
    decreases back.len(),
{
    let all = front + back;
    if back.len() == 0 {
        assert(all =~= front);
        assert(property_registrations(back, 0)->Ok_0 =~= Seq::<char>::empty());
        assert(property_registrations(front, front.len() as int)->Ok_0 + Seq::<char>::empty()
            =~= property_registrations(front, front.len() as int)->Ok_0);
    } else {
        let shorter = back.drop_last();
        assert(all.len() == front.len() + back.len());
        assert(all[all.len() - 1] == back.last());
        lemma_registrations_prefix(all, all.len() - 1, front + shorter);
        lemma_registrations_prefix(back, back.len() - 1, shorter);
        assert((front + shorter).len() == all.len() - 1);
        lemma_registrations_in_order(front, shorter);
        let a = property_registrations(front, front.len() as int)->Ok_0;
        let b = property_registrations(shorter, shorter.len() as int)->Ok_0;
        let c = property_registration(back.last())->Ok_0;
        assert((a + b) + c =~= a + (b + c));
    }
}

/// The statements of the first `n` properties depend on those properties alone.
pub proof fn lemma_registrations_prefix(
    props: Seq<PropertyView>,
    n: int,
    prefix: Seq<PropertyView>,
)
    requires
        0 <= n <= props.len(),
        prefix.len() == n,
        forall|i: int| 0 <= i < n ==> props[i] == prefix[i],
    ensures
        property_registrations(props, n) == property_registrations(prefix, n),
    decreases n,
{
    if n > 0 {
        lemma_registrations_prefix_upto(props, prefix, n);
    }
}

/// The statements of the first `k` properties of two lists that agree on them are the
/// same.
pub proof fn lemma_registrations_prefix_upto(
    props: Seq<PropertyView>,
    other: Seq<PropertyView>,
    k: int,
)
    requires
        0 <= k <= props.len(),
        k <= other.len(),
        forall|i: int| 0 <= i < k ==> props[i] == other[i],
    ensures
        property_registrations(props, k) == property_registrations(other, k),
    decreases k,
{
    if k > 0 {
        lemma_registrations_prefix_upto(props, other, k - 1);
    }
}

/// A property that is not exported is left out of the registration function and is still
/// a field that the constructor sets: behind any list of properties it adds no statement
/// and one line of the constructor.
pub proof fn lemma_no_export_is_excluded(props: Seq<PropertyView>, p: PropertyView)
    requires
        p.export_type is NoExport,
    ensures
        property_registration(p) == Ok::<Seq<char>, GenerationError>(Seq::empty()),
        property_registrations(props, props.len() as int) is Ok ==> property_registrations(
            props.push(p),
            props.len() + 1 as int,
        ) == property_registrations(props, props.len() as int),
        property_inits_code(props.push(p), props.len() + 1 as int) == property_inits_code(
            props,
            props.len() as int,
        ) + property_init(p) + ", "@,
{
    reveal_strlit("");
    assert(""@ =~= Seq::<char>::empty());
    lemma_registrations_prefix_upto(props.push(p), props, props.len() as int);
    lemma_inits_prefix_upto(props.push(p), props, props.len() as int);
    if property_registrations(props, props.len() as int) is Ok {
        let before = property_registrations(props, props.len() as int)->Ok_0;
        assert(before + Seq::<char>::empty() =~= before);
    }
}

/// Every declaration is a field of the struct, whatever its hint: behind any list of
/// declarations one more adds its field, name and type, to the struct.
pub proof fn lemma_every_declaration_is_a_field(vars: Seq<GdScriptVarView>, var: GdScriptVarView)
    ensures
        fields_code(vars.push(var), vars.len() + 1 as int) == fields_code(vars, vars.len() as int)
            + var.var_name + ": "@ + var.ty + ", "@,
{
    lemma_fields_prefix_upto(vars.push(var), vars, vars.len() as int);
}

/// The fields of the first `k` declarations of two lists that agree on them are the same.
pub proof fn lemma_fields_prefix_upto(
    vars: Seq<GdScriptVarView>,
    other: Seq<GdScriptVarView>,
    k: int,
)
    requires
        0 <= k <= vars.len(),
        k <= other.len(),
        forall|i: int| 0 <= i < k ==> vars[i] == other[i],
    ensures
        fields_code(vars, k) == fields_code(other, k),
    decreases k,
{
    if k > 0 {
        lemma_fields_prefix_upto(vars, other, k - 1);
    }
}

/// The constructor lines of the first `k` properties of two lists that agree on them are
/// the same.
pub proof fn lemma_inits_prefix_upto(props: Seq<PropertyView>, other: Seq<PropertyView>, k: int)
    requires
        0 <= k <= props.len(),
        k <= other.len(),
        forall|i: int| 0 <= i < k ==> props[i] == other[i],
    ensures
        property_inits_code(props, k) == property_inits_code(other, k),
    decreases k,
{
    if k > 0 {
        lemma_inits_prefix_upto(props, other, k - 1);
    }
}

/// The two forms of declaration come to the same property: a field that is annotated with
/// a hint and then a default is the property of the declaration with that hint, that
/// name, that type and that default.
pub proof fn lemma_annotations_give_the_declared_property(var: GdScriptVarView)
    ensures
        annotated(
            annotated(new_property(var.var_name, var.ty), AnnotationView::Export(var.export)),
            AnnotationView::Default(var.value),
        ) == property_of_var(var),
        annotated(
            annotated(new_property(var.var_name, var.ty), AnnotationView::Default(var.value)),
            AnnotationView::Export(var.export),
        ) == property_of_var(var),
{
}

/// A range that the grammar reads has bounds that are numbers of one kind: whichever
/// word of a range hint is read, in the form with `@` or as an annotation, a first bound
/// that is no number and a second bound of another kind are refused.
pub proof fn lemma_read_range_is_well_bounded(w: Seq<char>, after: Seq<TokenView>)
    ensures
        hint_for_word(w, after) matches Ok((ExportTypeView::ExportRange(range), _))
            ==> well_bounded(range),
        hint_for_word(w, after) matches Ok((ExportTypeView::ExportExpRange(range), _))
            ==> well_bounded(range),
        export_annotation(w, after) matches Ok(ExportTypeView::ExportRange(range))
            ==> well_bounded(range),
        export_annotation(w, after) matches Ok(ExportTypeView::ExportExpRange(range))
            ==> well_bounded(range),
{
}

/// A bound that breaks the rule is what the error of the grammar names: the literal at
/// the first place where it is no number, else the literal at the second place.
pub proof fn lemma_bound_error_names_the_bound(range: Seq<LitView>)
    ensures
        bounds_fault(range) matches Some(e) ==> range.len() >= 1 && (e.found
            == FoundView::Literal(range[0].token) && !numeric(range[0]) || range.len() >= 2
            && e.found == FoundView::Literal(range[1].token) && numeric(range[0])
            && range[1].kind != range[0].kind),
        well_bounded(range) && range.len() >= 2 ==> numeric(range[0]) && numeric(range[1])
            && range[0].kind == range[1].kind,
{
}

/// The hint of a range is written for bounds that are numbers of one kind and for no
/// others.
pub proof fn lemma_hint_holds_bounds_to_the_rule(range: Seq<LitView>, ty: Seq<char>, exp: bool)
    ensures
        range_hint(range, ty, exp) is Ok ==> range.len() >= 2 && well_bounded(range),
{
}

/// The literal is one of the two clamp markers.
pub open spec fn is_clamp_marker(item: LitView) -> bool {
    is_or_lesser(item) || is_or_greater(item)
}

/// The literal may stand behind the bounds of a range.
pub open spec fn is_modifier(item: LitView) -> bool {
    is_step(item) || is_clamp_marker(item)
}

/// The modifiers up to a place depend on the arguments before that place alone.
pub proof fn lemma_modifiers_prefix(first: Seq<LitView>, second: Seq<LitView>, n: int)
    requires
        n <= first.len(),
        n <= second.len(),
        forall|i: int| 2 <= i < n ==> first[i] == second[i],
    ensures
        modifiers_upto(first, n) == modifiers_upto(second, n),
    decreases n,
{
    if n > 2 {
        lemma_modifiers_prefix(first, second, n - 1);
    }
}

/// Two lists of arguments that give the same modifiers up to a place, and agree from that
/// place on, give the same modifiers.
pub proof fn lemma_modifiers_suffix(first: Seq<LitView>, second: Seq<LitView>, k: int, n: int)
    requires
        2 <= k <= n,
        n <= first.len(),
        n <= second.len(),
        modifiers_upto(first, k) == modifiers_upto(second, k),
        forall|i: int| k <= i < n ==> first[i] == second[i],
    ensures
        modifiers_upto(first, n) == modifiers_upto(second, n),
    decreases n - k,
{
    if k < n {
        lemma_modifiers_suffix(first, second, k, n - 1);
    }
}

/// The arguments of a range with the two at places `i` and `i + 1` in each other's
/// place.
pub open spec fn swapped(range: Seq<LitView>, i: int) -> Seq<LitView> {
    range.update(i, range[i + 1]).update(i + 1, range[i])
}

/// The clamp markers of a range may come in either order: with two markers that stand
/// side by side in each other's place, the modifiers are the same.
pub proof fn lemma_clamp_markers_commute(range: Seq<LitView>, i: int)
    requires
        2 <= i,
        i + 1 < range.len(),
        is_clamp_marker(range[i]),
        is_clamp_marker(range[i + 1]),
    ensures
        modifiers(swapped(range, i)) == modifiers(range),
{
    let other = swapped(range, i);
    lemma_modifiers_prefix(range, other, i);
    assert(modifiers_upto(range, i + 2) == modifiers_upto(other, i + 2)) by {
        assert(modifiers_upto(range, i + 1) == match modifiers_upto(range, i) {
            Err(e) => Err(e),
            Ok(m) => with_modifier(m, range[i], i),
        });
        assert(modifiers_upto(other, i + 1) == match modifiers_upto(other, i) {
            Err(e) => Err(e),
            Ok(m) => with_modifier(m, other[i], i),
        });
    }
    lemma_modifiers_suffix(range, other, i + 2, range.len() as int);
}

/// The order of the clamp markers does not change the hint: with two markers that stand
/// side by side in each other's place, the hint of the range is the same text.
pub proof fn lemma_clamp_order_keeps_hint(range: Seq<LitView>, i: int, ty: Seq<char>, exp: bool)
    requires
        2 <= i,
        i + 1 < range.len(),
        is_clamp_marker(range[i]),
        is_clamp_marker(range[i + 1]),
    ensures
        range_hint(swapped(range, i), ty, exp) == range_hint(range, ty, exp),
{
    lemma_clamp_markers_commute(range, i);
}

/// A marker that allows values below the lower bound stands among the arguments behind
/// the bounds, before place `n`.
pub open spec fn has_or_lesser(range: Seq<LitView>, n: int) -> bool {
    exists|i: int| 2 <= i < n && is_or_lesser(#[trigger] range[i])
}

/// A marker that allows values above the upper bound stands among the arguments behind
/// the bounds, before place `n`.
pub open spec fn has_or_greater(range: Seq<LitView>, n: int) -> bool {
    exists|i: int| 2 <= i < n && is_or_greater(#[trigger] range[i])
}

/// A number stands among the arguments behind the bounds, before place `n`.
pub open spec fn has_step(range: Seq<LitView>, n: int) -> bool {
    exists|i: int| 2 <= i < n && is_step(#[trigger] range[i])
}

/// Every argument behind the bounds, before place `n`, is a number or a clamp marker.
pub open spec fn all_modifiers(range: Seq<LitView>, n: int) -> bool {
    forall|i: int| 2 <= i < n ==> is_modifier(#[trigger] range[i])
}

/// What the modifiers of a range mean. The arguments behind the bounds are accepted
/// exactly if each is a number or a clamp marker; then a clamp is on exactly if its marker
/// stands among them, wherever it stands, and there is a step exactly if a number stands
/// among them.
pub proof fn lemma_modifiers_meaning(range: Seq<LitView>, n: int)
    requires
        n <= range.len(),
    ensures
        modifiers_upto(range, n) is Ok <==> all_modifiers(range, n),
        modifiers_upto(range, n) matches Ok(m) ==> {
            &&& m.or_lesser <==> has_or_lesser(range, n)
            &&& m.or_greater <==> has_or_greater(range, n)
            &&& m.step is Some <==> has_step(range, n)
        },
    decreases n,
{
    if n > 2 {
        lemma_modifiers_meaning(range, n - 1);
        let item = range[n - 1];
        assert(!(is_or_lesser(item) && is_or_greater(item))) by {
            reveal_strlit("or_lesser");
            reveal_strlit("or_greater");
            assert("or_lesser"@.len() != "or_greater"@.len());
        }
        if all_modifiers(range, n) {
            assert(is_modifier(range[n - 1]));
            assert(all_modifiers(range, n - 1));
        }
        if modifiers_upto(range, n) is Ok {
            let before = modifiers_upto(range, n - 1)->Ok_0;
            let m = modifiers_upto(range, n)->Ok_0;
            assert(is_modifier(item));
            assert(all_modifiers(range, n - 1));
            assert(all_modifiers(range, n)) by {
                assert forall|i: int| 2 <= i < n implies is_modifier(#[trigger] range[i]) by {
                    if i == n - 1 {
                    }
                }
            }
            if has_or_lesser(range, n) {
                let w = choose|i: int| 2 <= i < n && is_or_lesser(#[trigger] range[i]);
                if w < n - 1 {
                    assert(has_or_lesser(range, n - 1));
                }
                assert(m.or_lesser);
            }
            if m.or_lesser {
                if before.or_lesser {
                    let w = choose|i: int| 2 <= i < n - 1 && is_or_lesser(#[trigger] range[i]);
                    assert(2 <= w < n && is_or_lesser(range[w]));
                } else {
                    assert(is_or_lesser(range[n - 1]));
                }
                assert(has_or_lesser(range, n));
            }
            if has_or_greater(range, n) {
                let w = choose|i: int| 2 <= i < n && is_or_greater(#[trigger] range[i]);
                if w < n - 1 {
                    assert(has_or_greater(range, n - 1));
                }
                assert(m.or_greater);
            }
            if m.or_greater {
                if before.or_greater {
                    let w = choose|i: int| 2 <= i < n - 1 && is_or_greater(#[trigger] range[i]);
                    assert(2 <= w < n && is_or_greater(range[w]));
                } else {
                    assert(is_or_greater(range[n - 1]));
                }
                assert(has_or_greater(range, n));
            }
            if has_step(range, n) {
                let w = choose|i: int| 2 <= i < n && is_step(#[trigger] range[i]);
                if w < n - 1 {
                    assert(has_step(range, n - 1));
                }
                assert(m.step is Some);
            }
            if m.step is Some {
                if before.step is Some {
                    let w = choose|i: int| 2 <= i < n - 1 && is_step(#[trigger] range[i]);
                    assert(2 <= w < n && is_step(range[w]));
                } else {
                    assert(is_step(range[n - 1]));
                }
                assert(has_step(range, n));
            }
        }
    }
}

/// The names of an enumeration keep their places: the text of a list of names is the text
/// of its front part, then that of the rest, so that the name at place `i` of the list is
/// the `i`-th of the hint.
pub proof fn lemma_names_in_order(front: Seq<LitView>, back: Seq<LitView>)
    ensures
        into_items(front + back, (front + back).len() as int) == into_items(
            front,
            front.len() as int,
        ) + into_items(back, back.len() as int),
    decreases back.len(),
{
    let all = front + back;
    if back.len() == 0 {
        assert(all =~= front);
        assert(into_items(front, front.len() as int) + Seq::<char>::empty() =~= into_items(
            front,
            front.len() as int,
        ));
    } else {
        let shorter = back.drop_last();
        lemma_items_prefix(all, front + shorter, all.len() - 1);
        lemma_items_prefix(back, shorter, back.len() - 1);
        lemma_names_in_order(front, shorter);
        let a = into_items(front, front.len() as int);
        let b = into_items(shorter, shorter.len() as int);
        assert(all[all.len() - 1] == back.last());
        assert(((a + b) + back.last().token) + ".into(), "@ =~= a + ((b + back.last().token)
            + ".into(), "@));
    }
}

/// The text of the first `k` names of two lists that agree on them is the same.
pub proof fn lemma_items_prefix(values: Seq<LitView>, other: Seq<LitView>, k: int)
    requires
        0 <= k <= values.len(),
        k <= other.len(),
        forall|i: int| 0 <= i < k ==> values[i] == other[i],
    ensures
        into_items(values, k) == into_items(other, k),
    decreases k,
{
    if k > 0 {
        lemma_items_prefix(values, other, k - 1);
    }
}

} // verus!
