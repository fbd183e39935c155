// The sampling policy itself lives in candle; these tests check the premises
// the library's contracts lean on: a seeded sampler is deterministic, and
// with no temperature it picks the highest score.
use candle_core::{Device, Tensor};
use candle_transformers::generation::LogitsProcessor;

#[test]
fn seeded_sampling_is_deterministic() {
    let device = Device::Cpu;
    let scores = Tensor::new(&[1.0f32, 2.0, 0.5, 3.0, 0.1], &device).unwrap();
    let mut a = LogitsProcessor::new(398752958, Some(0.3), None);
    let mut b = LogitsProcessor::new(398752958, Some(0.3), None);
    for _ in 0..8 {
        assert_eq!(a.sample(&scores).unwrap(), b.sample(&scores).unwrap());
    }
}

#[test]
fn greedy_sampling_takes_the_top_score() {
    let device = Device::Cpu;
    let scores = Tensor::new(&[1.0f32, 2.0, 0.5, 3.0, 0.1], &device).unwrap();
    let mut sampler = LogitsProcessor::new(0, None, None);
    assert_eq!(sampler.sample(&scores).unwrap(), 3);
}

#[test]
fn repeat_penalty_lowers_recent_scores_only() {
    let device = Device::Cpu;
    let scores = Tensor::new(&[2.0f32, 2.0, 2.0], &device).unwrap();
    let adjusted =
        candle_transformers::utils::apply_repeat_penalty(&scores, 1.1, &[2u32]).unwrap();
    let v = adjusted.to_vec1::<f32>().unwrap();
    assert_eq!(v[0], 2.0);
    assert_eq!(v[1], 2.0);
    assert!(v[2] < 2.0);
}
