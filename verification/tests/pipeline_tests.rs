use edgebench::pipeline::{check_output, cpu_pipeline, run_stage, time_host, PipelineError, PixelBuffer};
use edgebench::stage::{BlurParams, EdgeParams, Shape, Stage, StageCall};
use edgebench::timing::ITERS;
use std::cell::RefCell;

type Host = PixelBuffer<Vec<u8>>;

fn shape(rows: u32, cols: u32, channels: u32) -> Shape {
    Shape { rows, cols, channels }
}

fn blank(rows: u32, cols: u32, channels: u32) -> Host {
    PixelBuffer {
        shape: shape(rows, cols, channels),
        pixels: vec![0u8; (rows * cols * channels) as usize],
    }
}

/// A 100 by 100 colour image, dark but for a bright square from 30 to 69.
fn bright_square() -> Host {
    let mut img = blank(100, 100, 3);
    for r in 30..70usize {
        for c in 30..70usize {
            for k in 0..3usize {
                img.pixels[(r * 100 + c) * 3 + k] = 255;
            }
        }
    }
    img
}

fn at(p: &[f64], rows: usize, cols: usize, r: isize, c: isize) -> f64 {
    let rr = r.clamp(0, rows as isize - 1) as usize;
    let cc = c.clamp(0, cols as isize - 1) as usize;
    p[rr * cols + cc]
}

/// A plain stand-in for the image backend, on host memory.
fn stand_in(call: StageCall, src: &Host) -> Result<Host, String> {
    let rows = src.shape.rows as usize;
    let cols = src.shape.cols as usize;
    let ch = src.shape.channels as usize;
    let out_shape = shape(src.shape.rows, src.shape.cols, 1);
    match call {
        StageCall::Grayscale => {
            if ch != 3 {
                return Err("grayscale needs three channels".to_string());
            }
            let mut out = vec![0u8; rows * cols];
            for i in 0..rows * cols {
                let b = src.pixels[i * 3] as f64;
                let g = src.pixels[i * 3 + 1] as f64;
                let r = src.pixels[i * 3 + 2] as f64;
                out[i] = (0.114 * b + 0.587 * g + 0.299 * r).round() as u8;
            }
            Ok(PixelBuffer { shape: out_shape, pixels: out })
        }
        StageCall::Blur(p) => {
            if ch != 1 {
                return Err("the blur of this stand-in needs one channel".to_string());
            }
            let sigma = p.sigma_x_tenths as f64 / 10.0;
            let half_w = (p.kernel_width / 2) as isize;
            let half_h = (p.kernel_height / 2) as isize;
            let src_f: Vec<f64> = src.pixels.iter().map(|v| *v as f64).collect();
            let mut out = vec![0u8; rows * cols];
            for r in 0..rows as isize {
                for c in 0..cols as isize {
                    let mut sum = 0.0;
                    let mut weight = 0.0;
                    for dr in -half_h..=half_h {
                        for dc in -half_w..=half_w {
                            let w = (-((dr * dr + dc * dc) as f64) / (2.0 * sigma * sigma)).exp();
                            sum += w * at(&src_f, rows, cols, r + dr, c + dc);
                            weight += w;
                        }
                    }
                    out[r as usize * cols + c as usize] = (sum / weight).round() as u8;
                }
            }
            Ok(PixelBuffer { shape: out_shape, pixels: out })
        }
        StageCall::Edges(p) => {
            if ch != 1 {
                return Err("edge detection needs one channel".to_string());
            }
            let src_f: Vec<f64> = src.pixels.iter().map(|v| *v as f64).collect();
            let mut out = vec![0u8; rows * cols];
            for r in 0..rows as isize {
                for c in 0..cols as isize {
                    let px = |dr: isize, dc: isize| at(&src_f, rows, cols, r + dr, c + dc);
                    let gx = (px(-1, 1) + 2.0 * px(0, 1) + px(1, 1))
                        - (px(-1, -1) + 2.0 * px(0, -1) + px(1, -1));
                    let gy = (px(1, -1) + 2.0 * px(1, 0) + px(1, 1))
                        - (px(-1, -1) + 2.0 * px(-1, 0) + px(-1, 1));
                    let magnitude = if p.l2_gradient {
                        (gx * gx + gy * gy).sqrt()
                    } else {
                        gx.abs() + gy.abs()
                    };
                    if magnitude > p.high_threshold as f64 {
                        out[r as usize * cols + c as usize] = 255;
                    }
                }
            }
            Ok(PixelBuffer { shape: out_shape, pixels: out })
        }
    }
}

#[test]
fn stages_carry_the_fixed_parameters() {
    assert_eq!(Stage::Grayscale.call(), StageCall::Grayscale);
    assert_eq!(
        Stage::Blur.call(),
        StageCall::Blur(BlurParams {
            kernel_width: 7,
            kernel_height: 7,
            sigma_x_tenths: 15,
            sigma_y_tenths: 0
        })
    );
    assert_eq!(
        Stage::Edges.call(),
        StageCall::Edges(EdgeParams {
            low_threshold: 0,
            high_threshold: 50,
            aperture: 3,
            l2_gradient: false
        })
    );
}

#[test]
fn grayscale_yields_one_channel_whatever_the_input_has() {
    assert_eq!(Stage::Grayscale.output_shape(shape(4, 5, 3)), shape(4, 5, 1));
    assert_eq!(Stage::Grayscale.output_shape(shape(4, 5, 4)), shape(4, 5, 1));
    assert_eq!(Stage::Grayscale.output_shape(shape(4, 5, 1)), shape(4, 5, 1));
}

#[test]
fn blur_keeps_the_shape_and_edges_yield_one_channel() {
    assert_eq!(Stage::Blur.output_shape(shape(8, 9, 3)), shape(8, 9, 3));
    assert_eq!(Stage::Blur.output_shape(shape(8, 9, 1)), shape(8, 9, 1));
    assert_eq!(Stage::Edges.output_shape(shape(8, 9, 1)), shape(8, 9, 1));
    assert_eq!(Stage::Edges.output_shape(shape(0, 0, 2)), shape(0, 0, 1));
}

#[test]
fn colour_images_are_not_empty_and_have_three_channels() {
    assert!(shape(100, 100, 3).color_image());
    assert!(!shape(100, 100, 1).color_image());
    assert!(!shape(100, 100, 4).color_image());
    assert!(!shape(0, 100, 3).color_image());
    assert!(!shape(100, 0, 3).color_image());
}

#[test]
fn check_output_accepts_the_implied_shape() {
    let r = check_output::<Vec<u8>, String>(Stage::Grayscale, shape(2, 3, 3), Ok(blank(2, 3, 1)));
    assert_eq!(r.ok().map(|b| b.shape), Some(shape(2, 3, 1)));
}

#[test]
fn check_output_refuses_another_shape() {
    let r = check_output::<Vec<u8>, String>(Stage::Grayscale, shape(2, 3, 3), Ok(blank(2, 3, 3)));
    match r {
        Err(PipelineError::Malformed { stage, expected, found }) => {
            assert_eq!(stage, Stage::Grayscale);
            assert_eq!(expected, shape(2, 3, 1));
            assert_eq!(found, shape(2, 3, 3));
        }
        _ => panic!("a malformed output was accepted"),
    }
    let r = check_output::<Vec<u8>, String>(Stage::Blur, shape(2, 3, 1), Ok(blank(3, 2, 1)));
    assert!(matches!(r, Err(PipelineError::Malformed { stage: Stage::Blur, .. })));
}

#[test]
fn check_output_names_the_stage_that_failed() {
    let r = check_output::<Vec<u8>, String>(Stage::Edges, shape(2, 3, 1), Err("no".to_string()));
    match r {
        Err(PipelineError::Backend { stage, cause }) => {
            assert_eq!(stage, Stage::Edges);
            assert_eq!(cause, "no");
        }
        _ => panic!("a failure was lost"),
    }
}

#[test]
fn host_pipeline_output_is_single_channel_with_the_input_dimensions() {
    for (rows, cols) in [(1u32, 1u32), (3, 17), (100, 100), (64, 48)] {
        let img = blank(rows, cols, 3);
        let out = cpu_pipeline(&img, &stand_in).ok().expect("the stand-in does not fail");
        assert_eq!(out.shape, shape(rows, cols, 1));
        assert_eq!(out.pixels.len(), (rows * cols) as usize);
    }
}

#[test]
fn host_pipeline_runs_the_three_stages_in_order() {
    let seen: RefCell<Vec<(StageCall, Shape)>> = RefCell::new(Vec::new());
    let backend = |call: StageCall, src: &Host| {
        seen.borrow_mut().push((call, src.shape));
        stand_in(call, src)
    };
    let img = blank(6, 8, 3);
    assert!(cpu_pipeline(&img, &backend).is_ok());
    assert_eq!(
        *seen.borrow(),
        vec![
            (Stage::Grayscale.call(), shape(6, 8, 3)),
            (Stage::Blur.call(), shape(6, 8, 1)),
            (Stage::Edges.call(), shape(6, 8, 1)),
        ]
    );
}

#[test]
fn host_pipeline_hands_each_stage_the_output_of_the_one_before() {
    let backend = |call: StageCall, src: &Host| -> Result<Host, String> {
        let mark = match call {
            StageCall::Grayscale => 1u8,
            StageCall::Blur(_) => {
                assert_eq!(src.pixels, vec![1u8]);
                2
            }
            StageCall::Edges(_) => {
                assert_eq!(src.pixels, vec![2u8]);
                3
            }
        };
        Ok(PixelBuffer { shape: shape(src.shape.rows, src.shape.cols, 1), pixels: vec![mark] })
    };
    let out = cpu_pipeline(&blank(1, 1, 3), &backend).ok().unwrap();
    assert_eq!(out.pixels, vec![3u8]);
}

#[test]
fn host_pipeline_stops_at_the_stage_that_fails() {
    let seen: RefCell<Vec<StageCall>> = RefCell::new(Vec::new());
    let backend = |call: StageCall, src: &Host| -> Result<Host, String> {
        seen.borrow_mut().push(call);
        match call {
            StageCall::Blur(_) => Err("out of memory".to_string()),
            _ => stand_in(call, src),
        }
    };
    match cpu_pipeline(&blank(5, 5, 3), &backend) {
        Err(PipelineError::Backend { stage, cause }) => {
            assert_eq!(stage, Stage::Blur);
            assert_eq!(cause, "out of memory");
        }
        _ => panic!("the failure of the blur was lost"),
    }
    assert_eq!(*seen.borrow(), vec![Stage::Grayscale.call(), Stage::Blur.call()]);
}

#[test]
fn host_pipeline_fails_in_the_first_stage_on_a_gray_input() {
    let r = cpu_pipeline(&blank(5, 5, 1), &stand_in);
    assert!(matches!(r, Err(PipelineError::Backend { stage: Stage::Grayscale, .. })));
}

#[test]
fn host_pipeline_refuses_a_malformed_output() {
    let seen: RefCell<Vec<StageCall>> = RefCell::new(Vec::new());
    let backend = |call: StageCall, src: &Host| -> Result<Host, String> {
        seen.borrow_mut().push(call);
        match call {
            StageCall::Grayscale => Ok(blank(src.shape.rows, src.shape.cols + 1, 1)),
            _ => stand_in(call, src),
        }
    };
    match cpu_pipeline(&blank(5, 5, 3), &backend) {
        Err(PipelineError::Malformed { stage, expected, found }) => {
            assert_eq!(stage, Stage::Grayscale);
            assert_eq!(expected, shape(5, 5, 1));
            assert_eq!(found, shape(5, 6, 1));
        }
        _ => panic!("a malformed output was accepted"),
    }
    assert_eq!(*seen.borrow(), vec![Stage::Grayscale.call()]);
}

#[test]
fn run_stage_sends_one_request() {
    let seen: RefCell<Vec<StageCall>> = RefCell::new(Vec::new());
    let backend = |call: StageCall, src: &Host| {
        seen.borrow_mut().push(call);
        stand_in(call, src)
    };
    let out = run_stage(Stage::Blur, &blank(4, 4, 1), &backend).ok().unwrap();
    assert_eq!(out.shape, shape(4, 4, 1));
    assert_eq!(*seen.borrow(), vec![Stage::Blur.call()]);
}

#[test]
fn bright_square_gives_edges_near_its_border_only() {
    let img = bright_square();
    let out = cpu_pipeline(&img, &stand_in).ok().expect("the stand-in does not fail");
    assert_eq!(out.shape, shape(100, 100, 1));
    let mut marked = 0usize;
    for r in 0..100i32 {
        for c in 0..100i32 {
            let v = out.pixels[(r * 100 + c) as usize];
            let inside_outer = (25..75).contains(&r) && (25..75).contains(&c);
            let inside_inner = (35..65).contains(&r) && (35..65).contains(&c);
            let near_border = inside_outer && !inside_inner;
            if v != 0 {
                marked += 1;
                assert!(near_border, "edge at ({r}, {c}), away from the square's border");
            }
        }
    }
    assert!(marked > 0);
    assert_ne!(out.pixels[30 * 100 + 50], 0);
    assert_eq!(out.pixels[50 * 100 + 50], 0);
    assert_eq!(out.pixels[5 * 100 + 5], 0);
}

#[test]
fn time_host_runs_the_pipeline_iters_times() {
    let runs: RefCell<usize> = RefCell::new(0);
    let backend = |call: StageCall, src: &Host| {
        if call == StageCall::Grayscale {
            *runs.borrow_mut() += 1;
        }
        stand_in(call, src)
    };
    let t = time_host("CPU", &blank(4, 4, 3), &backend).ok().unwrap();
    assert_eq!(*runs.borrow(), ITERS);
    assert_eq!(t.iteration_count(), ITERS);
    assert!(t.report_line().starts_with("CPU pipeline: "));
}

#[test]
fn time_host_gives_up_at_the_first_run_that_fails() {
    let calls: RefCell<usize> = RefCell::new(0);
    let backend = |call: StageCall, src: &Host| -> Result<Host, String> {
        *calls.borrow_mut() += 1;
        if *calls.borrow() == 8 {
            Err("late".to_string())
        } else {
            stand_in(call, src)
        }
    };
    let r = time_host("CPU", &blank(4, 4, 3), &backend);
    assert!(matches!(r, Err(PipelineError::Backend { stage: Stage::Blur, .. })));
    assert_eq!(*calls.borrow(), 8);
}
