use abstract_value_engine::abstract_value::{AbstractValue, AbstractValueTrait};
use abstract_value_engine::expression::{Expression, ExpressionType};
use abstract_value_engine::path::Path;
use std::rc::Rc;

fn variable(ordinal: usize, var_type: ExpressionType) -> Rc<AbstractValue> {
    AbstractValue::make_from(
        Expression::Variable { path: Path::new_local(ordinal), var_type },
        1,
    )
}

fn show(v: &Rc<AbstractValue>) -> String {
    match &v.expression {
        Expression::Variable { path, .. } => match &path.value {
            abstract_value_engine::path::PathEnum::LocalVariable { ordinal } => format!("v{}", ordinal),
            _ => "?".to_string(),
        },
        Expression::And { left, right } => format!("({} && {})", show(left), show(right)),
        Expression::Or { left, right } => format!("({} || {})", show(left), show(right)),
        Expression::LogicalNot { operand } => format!("!{}", show(operand)),
        Expression::Equals { left, right } => format!("({} == {})", show(left), show(right)),
        Expression::Ne { left, right } => format!("({} != {})", show(left), show(right)),
        Expression::ConditionalExpression { condition, consequent, alternate } => {
            format!("({} ? {} : {})", show(condition), show(consequent), show(alternate))
        }
        Expression::CompileTimeConstant(c) => format!("{:?}", c),
        other => format!("{:?}", other),
    }
}

// The truth of a condition where bit `n` of `bits` is the variable with ordinal `n`.
fn eval(v: &Rc<AbstractValue>, bits: u32) -> bool {
    match &v.expression {
        Expression::Variable { path, .. } => match &path.value {
            abstract_value_engine::path::PathEnum::LocalVariable { ordinal } => bits & (1 << ordinal) != 0,
            _ => panic!("path"),
        },
        Expression::And { left, right } => eval(left, bits) && eval(right, bits),
        Expression::Or { left, right } => eval(left, bits) || eval(right, bits),
        Expression::LogicalNot { operand } => !eval(operand, bits),
        Expression::Equals { left, right } => eval(left, bits) == eval(right, bits),
        Expression::Ne { left, right } => eval(left, bits) != eval(right, bits),
        Expression::ConditionalExpression { condition, consequent, alternate } => {
            if eval(condition, bits) { eval(consequent, bits) } else { eval(alternate, bits) }
        }
        Expression::CompileTimeConstant(_) => v.as_bool_if_known().unwrap(),
        other => panic!("{:?}", other),
    }
}

// Builds conditions over three Boolean variables with the operators, round by round,
// and holds every result against the truth table of the operation on its operands.
#[test]
fn operators_keep_the_truth_of_what_they_build() {
    let x = variable(1, ExpressionType::Bool);
    let y = variable(2, ExpressionType::Bool);
    let z = variable(3, ExpressionType::Bool);
    let mut formulas: Vec<Rc<AbstractValue>> = vec![x.clone(), y.clone(), z.clone(), AbstractValue::of_bool(true), AbstractValue::of_bool(false)];
    let mut found: Vec<(u64, String)> = Vec::new();
    let mut check = |what: &str, parts: &[&Rc<AbstractValue>], result: &Rc<AbstractValue>, expected: &dyn Fn(u32) -> bool, found: &mut Vec<(u64, String)>| {
        for bits in 0..16u32 {
            if eval(result, bits) != expected(bits) {
                let size: u64 = parts.iter().map(|p| p.expression_size).sum();
                found.push((size, format!("{} {:?} -> {} at {:04b}", what, parts.iter().map(|p| show(p)).collect::<Vec<_>>(), show(result), bits)));
                break;
            }
        }
    };
    for round in 0..3 {
        let current = formulas.clone();
        let step = if round == 2 { 7 } else { 1 };
        for (i, a) in current.iter().enumerate() {
            let r = a.logical_not();
            check("not", &[a], &r, &|s| !eval(a, s), &mut found);
            formulas.push(r);
            for (j, b) in current.iter().enumerate() {
                if (i + j) % step != 0 { continue; }
                let r = abstract_value_engine::conjunction::and(a, b.clone(), 256);
                check("and", &[a, b], &r, &|s| eval(a, s) && eval(b, s), &mut found);
                formulas.push(r);
                let r = a.or(b.clone());
                check("or", &[a, b], &r, &|s| eval(a, s) || eval(b, s), &mut found);
                formulas.push(r);
                let r = a.equals(b.clone());
                check("equals", &[a, b], &r, &|s| eval(a, s) == eval(b, s), &mut found);
                let r = a.not_equals(b.clone());
                check("not_equals", &[a, b], &r, &|s| eval(a, s) != eval(b, s), &mut found);
                if a.as_bool_if_known().is_none() {
                    let r = b.refine_with(a, 0);
                    for bits in 0..16u32 {
                        if eval(a, bits) && eval(&r, bits) != eval(b, bits) {
                            found.push((a.expression_size + b.expression_size, format!("refine {} with {} -> {} at {:04b}", show(b), show(a), show(&r), bits)));
                            break;
                        }
                    }
                }
                for c in current.iter().take(12) {
                    if a.is_bottom() || (b.is_bottom() && c.is_bottom()) { continue; }
                    let r = a.conditional_expression(b.clone(), c.clone());
                    check("conditional", &[a, b, c], &r, &|s| if eval(a, s) { eval(b, s) } else { eval(c, s) }, &mut found);
                    if round < 2 && (i + j) % 5 == 0 { formulas.push(r); }
                }
            }
        }
        formulas.sort();
        formulas.dedup();
        if formulas.len() > 150 {
            let keep: Vec<_> = formulas.iter().step_by(formulas.len() / 150 + 1).cloned().collect();
            formulas = keep;
        }
    }
    found.sort();
    found.dedup();
    let firsts: Vec<String> = found.iter().take(12).map(|f| f.1.clone()).collect();
    assert!(found.is_empty(), "{} formulas, {} found\n{}", formulas.len(), found.len(), firsts.join("\n"));
}
