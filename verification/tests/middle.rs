use dyncif::Arg;
use dyncif::Builder;
use dyncif::Cif;
use dyncif::Closure;
use dyncif::ClosureMut;
use dyncif::ClosureOnce;
use dyncif::Type;
use dyncif::TypeArray;
use dyncif::arg;
use dyncif::FFI_DEFAULT_ABI;

#[test]
fn call() {
    let cif = Cif::new(vec![Type::i64(), Type::i64()], Type::i64());
    let add_it = |args: &Vec<Arg>| -> u64 { args[0].0 + args[1].0 };
    let f = |m: u64, n: u64| -> u64 { cif.call(add_it, &vec![arg(&m), arg(&n)]) };

    assert_eq!(12, f(5, 7));
    assert_eq!(13, f(6, 7));
    assert_eq!(15, f(8, 7));
}

#[test]
fn closure() {
    let cif = Cif::new(vec![Type::u64()], Type::u64());
    let env: u64 = 5;
    let callback = |args: &Vec<Arg>, userdata: &u64| -> u64 { args[0].0 + *userdata };
    let closure = Closure::new(cif, callback, &env);

    assert_eq!(11, closure.invoke(&vec![arg(&6u64)]));
    assert_eq!(12, closure.invoke(&vec![arg(&7u64)]));
}

#[test]
fn rust_lambda() {
    let cif = Cif::new(vec![Type::u64(), Type::u64()], Type::u64());
    let lambda = |x: u64, y: u64| -> u64 { x + y };
    let closure = Closure::new(
        cif,
        |args: &Vec<Arg>, f: &_| -> u64 { f(args[0].0, args[1].0) },
        &lambda,
    );

    assert_eq!(11, closure.invoke(&vec![arg(&5u64), arg(&6u64)]));
}

#[test]
fn duplicate_invokes_identically() {
    let orig = Cif::new(vec![Type::u64(), Type::u64()], Type::u64());
    let dup = orig.clone();
    let add = |args: &Vec<Arg>| -> u64 { args[0].0 + args[1].0 };
    let a = vec![arg(&5u64), arg(&7u64)];

    assert_eq!(orig.call(add, &a), dup.call(add, &a));
    assert_eq!(orig.nargs(), dup.nargs());
    assert_eq!(orig.as_raw_ptr(), dup.as_raw_ptr());

    drop(orig);
    assert_eq!(12, dup.call(add, &a));
    assert_eq!(13, dup.call(add, &vec![arg(&6u64), arg(&7u64)]));
    assert_eq!(2, dup.nargs());
}

#[test]
fn set_abi_changes_only_the_convention() {
    let mut cif = Cif::new(vec![Type::pointer()], Type::void());
    assert_eq!(FFI_DEFAULT_ABI, cif.as_raw_ptr().abi);
    assert_eq!(1, cif.as_raw_ptr().nargs);

    cif.set_abi(7);
    assert_eq!(7, cif.as_raw_ptr().abi);
    assert_eq!(1, cif.as_raw_ptr().nargs);
    assert_eq!(1, cif.nargs());
}

#[test]
fn mutable_capture_observes_previous_mutation() {
    let cif = Cif::new(vec![Type::u64()], Type::u64());
    let callback =
        |args: &Vec<Arg>, count: &u64| -> (u64, u64) { (args[0].0 + *count, *count + 1) };
    let mut closure = ClosureMut::new_mut(cif, callback, 0u64);

    assert_eq!(10, closure.invoke(&vec![arg(&10u64)]));
    assert_eq!(11, closure.invoke(&vec![arg(&10u64)]));
    assert_eq!(12, closure.invoke(&vec![arg(&10u64)]));
    assert_eq!(3, *closure.userdata());
    assert_eq!(1, closure.code_ptr().nargs);
}

#[test]
fn owned_capture_is_consumed_once() {
    let cif = Cif::new(vec![Type::u64()], Type::u64());
    let callback = |args: &Vec<Arg>, state: Option<String>| -> (u64, Option<String>) {
        match state {
            Some(s) => (s.len() as u64 + args[0].0, None),
            None => (0, None),
        }
    };
    let mut closure = ClosureOnce::new(cif, callback, String::from("hello"));

    assert_eq!(6, closure.invoke(&vec![arg(&1u64)]));
    assert_eq!(0, closure.invoke(&vec![arg(&1u64)]));
}

#[test]
fn empty_aggregate_accepted_by_descriptor_layer() {
    let empty = Builder::new().finish();
    assert_eq!(Some(0), empty.field_count());

    let direct = Type::structure(vec![]);
    assert_eq!(Some(0), direct.field_count());

    let cif = Cif::new(vec![direct], Type::void());
    assert_eq!(1, cif.nargs());
}

#[test]
fn builder_accepts_fields_incrementally() {
    let agg = Builder::new()
        .field(Type::u8())
        .field(Type::u32())
        .field(Type::pointer())
        .finish();
    assert_eq!(Some(3), agg.field_count());
    assert_eq!(None, Type::u8().field_count());
    assert_eq!(None, Type::pointer().field_count());
}

#[test]
fn aggregate_boundary_form_has_sentinel() {
    let agg = Builder::new().field(Type::u8()).field(Type::u32()).finish();
    let fields = agg.terminated_fields().unwrap();
    assert_eq!(3, fields.len());
    assert!(fields[0].is_some());
    assert!(fields[1].is_some());
    assert!(fields[2].is_none());
    assert!(Type::void().terminated_fields().is_none());
    assert!(Type::pointer().terminated_fields().is_none());
}

#[test]
fn descriptor_clone_is_deep() {
    let agg = Type::structure(vec![Type::u8(), Type::structure(vec![Type::u16()])]);
    let copy = agg.clone();
    drop(agg);
    assert_eq!(Some(2), copy.field_count());
}

#[test]
fn terminated_appends_single_sentinel() {
    let arr = TypeArray::new(vec![Type::u16(), Type::double()]);
    assert_eq!(2, arr.len());
    let boundary = arr.terminated();
    assert_eq!(3, boundary.len());
    assert!(boundary[0].is_some());
    assert!(boundary[1].is_some());
    assert!(boundary[2].is_none());

    let empty = TypeArray::new(vec![]);
    assert_eq!(0, empty.len());
    let boundary_empty = empty.terminated();
    assert_eq!(1, boundary_empty.len());
    assert!(boundary_empty[0].is_none());
}

#[test]
fn arg_wraps_the_word() {
    let x: u64 = 99;
    assert_eq!(99, arg(&x).0);
    assert_eq!(99, Arg::new(&x).0);
}

#[test]
fn code_pointer_carries_the_signature_count() {
    let cif = Cif::new(vec![Type::u64(), Type::u64()], Type::u64());
    let env: u64 = 0;
    let closure = Closure::new(cif, |args: &Vec<Arg>, _e: &u64| -> u64 { args[0].0 }, &env);
    assert_eq!(2, closure.code_ptr().nargs);

    let cif1 = Cif::new(vec![Type::u64()], Type::u64());
    let mut once = ClosureOnce::new(
        cif1,
        |_args: &Vec<Arg>, state: Option<u64>| -> (u64, Option<u64>) {
            (state.unwrap_or(0), None)
        },
        9u64,
    );
    assert_eq!(1, once.code_ptr().nargs);
    assert_eq!(9, once.invoke(&vec![arg(&1u64)]));
}

#[test]
fn mismatched_count_is_refused_before_any_call() {
    let cif = Cif::new(vec![Type::u64(), Type::u64()], Type::u64());
    assert_eq!(2, cif.nargs());

    // The callback would read two argument words; on a mismatched count it
    // is never reached.
    let add = |args: &Vec<Arg>| -> u64 { args[0].0 + args[1].0 };
    assert_eq!(None, cif.try_call(add, &vec![arg(&1u64)]));
    assert_eq!(
        None,
        cif.try_call(add, &vec![arg(&1u64), arg(&2u64), arg(&3u64)])
    );
    assert_eq!(Some(3), cif.try_call(add, &vec![arg(&1u64), arg(&2u64)]));
}
