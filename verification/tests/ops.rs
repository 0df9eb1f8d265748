use nami::binding;
use nami::constant;
use nami::Binding;
use nami::Computed;
use nami::Signal;

#[test]
fn test_binding_binary_ops() {
    let a: Binding<i32> = binding(10);
    let b: Binding<i32> = binding(3);

    // Addition
    let sum = nami::utils::add(a.duplicate(), b.duplicate());
    assert_eq!(sum.get(), 13);

    // Subtraction
    let diff = nami::utils::sub(a.duplicate(), b.duplicate());
    assert_eq!(diff.get(), 7);

    // Multiplication
    let product = nami::utils::mul(a.duplicate(), b.duplicate());
    assert_eq!(product.get(), 30);

    // Division
    let quotient = nami::utils::div(a.duplicate(), b.duplicate());
    assert_eq!(quotient.get(), 3);

    // Remainder
    let remainder = nami::utils::rem(a.duplicate(), b.duplicate());
    assert_eq!(remainder.get(), 1);
}

#[test]
fn test_binding_bitwise_ops() {
    let a: Binding<u32> = binding(0b1100u32);
    let b: Binding<u32> = binding(0b1010u32);

    let and = nami::utils::bitand(a.duplicate(), b.duplicate());
    assert_eq!(and.get(), 0b1000);

    let or = nami::utils::bitor(a.duplicate(), b.duplicate());
    assert_eq!(or.get(), 0b1110);

    let xor = nami::utils::bitxor(a.duplicate(), b.duplicate());
    assert_eq!(xor.get(), 0b0110);

    let shift: Binding<u32> = binding(2u32);
    let shl = nami::utils::shl(a.duplicate(), shift.duplicate());
    assert_eq!(shl.get(), 0b110000);

    let shr = nami::utils::shr(a.duplicate(), shift);
    assert_eq!(shr.get(), 0b11);
}

#[test]
fn test_computed_ops() {
    let a: Computed<i32> = Computed::constant(10);
    let b: Computed<i32> = Computed::constant(5);

    let sum = nami::utils::add(a.clone(), b.clone());
    assert_eq!(sum.get(), 15);

    let diff = nami::utils::sub(a.clone(), b.clone());
    assert_eq!(diff.get(), 5);

    // Negation
    let negated = nami::utils::neg(a.clone());
    assert_eq!(negated.get(), -10);
}

#[test]
fn test_computed_not() {
    let flag: Computed<bool> = Computed::constant(true);
    let negated = nami::utils::not(flag);
    assert!(!negated.get());
}

#[test]
fn test_map_ops() {
    let a: Binding<i32> = binding(10);
    let mapped = nami::mapped::map(a, |x: i32| x * 2);

    let b: Binding<i32> = binding(5);
    let sum = nami::utils::add(mapped, b);
    assert_eq!(sum.get(), 25); // (10 * 2) + 5 = 25
}

#[test]
fn test_constant_ops() {
    let a = constant(10i32);
    let b = constant(3i32);

    let sum = nami::utils::add(a.clone(), b.clone());
    assert_eq!(sum.get(), 13);

    let negated = nami::utils::neg(a);
    assert_eq!(negated.get(), -10);
}

#[test]
fn test_cached_ops() {
    let a: Binding<i32> = binding(10);
    let cached = nami::cache::cached(a);

    let b: Binding<i32> = binding(5);
    let sum = nami::utils::add(cached, b);
    assert_eq!(sum.get(), 15);
}

#[test]
fn test_chained_ops() {
    let mut a: Binding<i32> = binding(10);
    let b: Binding<i32> = binding(5);
    let c: Binding<i32> = binding(2);

    // (a + b) * c
    let result = nami::utils::mul(
        nami::utils::add(a.duplicate(), b.duplicate()),
        c.duplicate(),
    );
    assert_eq!(result.get(), 30);

    // Reactivity: after setting the source, the recomposed computation
    // reads the new value.
    let _ = a.set(20);
    let result = nami::utils::mul(
        nami::utils::add(a.duplicate(), b.duplicate()),
        c.duplicate(),
    );
    assert_eq!(result.get(), 50); // (20 + 5) * 2 = 50
}

#[test]
fn test_mixed_signal_types_ops() {
    let binding_val: Binding<i32> = binding(10);
    let constant_val = constant(5i32);
    let computed_val: Computed<i32> = Computed::constant(3);

    // Binding + Constant
    let sum1 = nami::utils::add(binding_val.duplicate(), constant_val.clone());
    assert_eq!(sum1.get(), 15);

    // Binding + Computed
    let sum2 = nami::utils::add(binding_val.duplicate(), computed_val.clone());
    assert_eq!(sum2.get(), 13);

    // Constant + Computed
    let sum3 = nami::utils::add(constant_val, computed_val);
    assert_eq!(sum3.get(), 8);
}

#[test]
fn test_max_min() {
    let a: Binding<i32> = binding(10);
    let b: Binding<i32> = binding(5);

    let maximum = nami::utils::max(a.duplicate(), b.duplicate());
    assert_eq!(maximum.get(), 10);

    let minimum = nami::utils::min(a, b);
    assert_eq!(minimum.get(), 5);
}
