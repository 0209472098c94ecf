use optimization_engine::fbs_optimizer::{FBSOptimizer, MAX_ITER};
use std::time::Duration;

#[test]
fn fbs_defaults_and_builders() {
    let mut engine: Vec<f64> = vec![1.0, 2.0];
    let mut opt = FBSOptimizer::new(&mut engine);
    assert_eq!(opt.max_iter(), MAX_ITER);
    assert_eq!(MAX_ITER, 100);
    assert!(opt.max_duration().is_none());
    opt.with_max_iter(7).with_max_duration(Duration::from_secs(2));
    assert_eq!(opt.max_iter(), 7);
    assert_eq!(opt.max_duration(), Some(Duration::from_secs(2)));
    opt.fbs_engine_mut()[0] = 5.0;
    drop(opt);
    assert_eq!(engine, vec![5.0, 2.0]);
}

#[test]
fn fbs_loop_decisions() {
    let mut engine = 0u8;
    let mut opt = FBSOptimizer::new(&mut engine);
    opt.with_max_iter(3);
    assert!(opt.should_continue(true, 2, true));
    assert!(!opt.should_continue(true, 3, false));
    assert!(!opt.should_continue(false, 0, false));
    assert!(opt.is_converged(2));
    assert!(!opt.is_converged(3));
    opt.with_max_duration(Duration::from_millis(1));
    assert!(!opt.should_continue(true, 0, true));
    assert!(opt.should_continue(true, 0, false));
}
