use capturist::pipeline::{VideoPipeline, VIDEO_PIPELINE_QUEUE_CAPACITY};

#[test]
fn backpressure_con_el_worker_detenido() {
    // The consumer never takes a frame: of twenty produced frames only the
    // first six are queued, the rest are counted dropped, and the queue
    // never exceeds its capacity.
    let mut pipeline = VideoPipeline::new();

    for _ in 0..20 {
        let accept = pipeline
            .should_accept_frame()
            .expect("sin error de worker la admision responde");
        if accept {
            assert!(pipeline.queued < VIDEO_PIPELINE_QUEUE_CAPACITY);
            pipeline.frame_arrived().expect("encolar debe funcionar");
        } else {
            pipeline.on_frame_dropped();
        }
        assert!(pipeline.queued <= VIDEO_PIPELINE_QUEUE_CAPACITY);
    }

    assert_eq!(pipeline.queued, 6);
    assert_eq!(pipeline.dropped, 14);
    assert_eq!(pipeline.sent, 6);
}

#[test]
fn frame_descartado_no_produce_paquete() {
    let mut pipeline = VideoPipeline::new();
    for _ in 0..VIDEO_PIPELINE_QUEUE_CAPACITY {
        pipeline.frame_arrived().unwrap();
    }
    let sent_before = pipeline.sent;
    let dropped_before = pipeline.dropped;

    // The queue is full: the frame is silently dropped.
    pipeline.frame_arrived().unwrap();
    assert_eq!(pipeline.sent, sent_before);
    assert_eq!(pipeline.dropped, dropped_before + 1);
}

#[test]
fn error_del_worker_corta_la_admision() {
    let mut pipeline = VideoPipeline::new();
    pipeline.frame_arrived().unwrap();
    pipeline.record_worker_error("fallo el encoder".to_string());

    let err = pipeline.should_accept_frame().unwrap_err();
    assert!(err.contains("fallo el encoder"));

    pipeline.record_worker_error("segundo fallo".to_string());
    let err = pipeline.frame_arrived().unwrap_err();
    assert_eq!(err, "fallo el encoder | segundo fallo");

    let err = pipeline.session_finished().unwrap_err();
    assert_eq!(err, "fallo el encoder | segundo fallo");
    assert!(pipeline.session_finished().is_ok());
}

#[test]
fn desconexion_sin_error_da_mensaje_generico() {
    let mut pipeline = VideoPipeline::new();
    pipeline.session_finished().unwrap();
    let err = pipeline.frame_arrived().unwrap_err();
    assert!(err.contains("se desconectó"));
}

#[test]
fn el_worker_drena_la_cola() {
    let mut pipeline = VideoPipeline::new();
    pipeline.frame_arrived().unwrap();
    pipeline.frame_arrived().unwrap();
    assert_eq!(pipeline.queued, 2);
    pipeline.worker_take_frame();
    assert_eq!(pipeline.queued, 1);
    assert!(pipeline.should_accept_frame().unwrap());
}

use capturist::pipeline::{worker_close_error_message, worker_encode_error_message, worker_panicked_message};

#[test]
fn mensajes_de_error_del_worker() {
    assert_eq!(
        worker_encode_error_message("sin memoria"),
        "Error codificando frame de video: sin memoria"
    );
    assert_eq!(
        worker_close_error_message("trailer"),
        "Error cerrando encoder de video: trailer"
    );
    assert_eq!(
        worker_panicked_message(),
        "El worker de codificación de video finalizó con panic"
    );
}
